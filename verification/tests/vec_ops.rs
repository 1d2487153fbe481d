use ray_tracer::fixed::SCALE;
use ray_tracer::matrix::Matrix4;
use ray_tracer::vec3::{reflect, Vec3};

const S: i64 = SCALE;

fn fuzzy_eq_vec(a: &Vec3, b: &Vec3) -> bool {
    (a.x - b.x).abs() < 1_000 && (a.y - b.y).abs() < 1_000 && (a.z - b.z).abs() < 1_000
}

#[test]
fn test_length() {
    let v = Vec3 { x: S, y: 2 * S, z: 3 * S };
    assert_eq!(v.length(), 37_416_573);
}

#[test]
fn test_squared_length() {
    let v = Vec3 { x: S, y: 2 * S, z: 3 * S };
    assert_eq!(v.squared_length(), 14 * S);
}

#[test]
fn test_normalise() {
    let v = Vec3 { x: S, y: 2 * S, z: 3 * S };
    assert_eq!(v.normalise(), Vec3 { x: 2_672_612, y: 5_345_224, z: 8_017_837 });
}

#[test]
fn test_dot() {
    let v1 = Vec3 { x: S, y: 2 * S, z: 3 * S };
    let v2 = Vec3 { x: 4 * S, y: 5 * S, z: 6 * S };
    assert_eq!(v1.dot(&v2), 32 * S);
}

#[test]
fn test_cross() {
    let v1 = Vec3 { x: S, y: 2 * S, z: 3 * S };
    let v2 = Vec3 { x: 4 * S, y: 5 * S, z: 6 * S };
    assert_eq!(v1.cross(&v2), Vec3 { x: -3 * S, y: 6 * S, z: -3 * S });
}

#[test]
fn test_near_zero() {
    // Half of one hundredth of a millionth rounds to nothing at this scale.
    let v = Vec3 { x: 0, y: 0, z: 0 };
    assert!(v.near_zero());

    let u = Vec3 { x: S, y: 2 * S, z: 3 * S };
    assert!(!u.near_zero());
}

#[test]
fn vec3_test_add() {
    let v1 = Vec3 { x: S, y: 2 * S, z: 3 * S };
    let v2 = Vec3 { x: 4 * S, y: 5 * S, z: 6 * S };
    assert_eq!(v1.add(&v2), Vec3 { x: 5 * S, y: 7 * S, z: 9 * S });
}

#[test]
fn vec3_test_add_assign() {
    let mut v1 = Vec3 { x: S, y: 2 * S, z: 3 * S };
    let v2 = Vec3 { x: 4 * S, y: 5 * S, z: 6 * S };
    v1 = v1.add(&v2);
    assert_eq!(v1, Vec3 { x: 5 * S, y: 7 * S, z: 9 * S });
}

#[test]
fn vec3_test_sub() {
    let v1 = Vec3 { x: S, y: 2 * S, z: 3 * S };
    let v2 = Vec3 { x: 4 * S, y: 5 * S, z: 6 * S };
    assert_eq!(v1.sub(&v2), Vec3 { x: -3 * S, y: -3 * S, z: -3 * S });
}

#[test]
fn vec3_test_sub_assign() {
    let mut v1 = Vec3 { x: S, y: 2 * S, z: 3 * S };
    let v2 = Vec3 { x: 4 * S, y: 5 * S, z: 6 * S };
    v1 = v1.sub(&v2);
    assert_eq!(v1, Vec3 { x: -3 * S, y: -3 * S, z: -3 * S });
}

#[test]
fn test_mul() {
    let v1 = Vec3 { x: S, y: 2 * S, z: 3 * S };
    let v2 = Vec3 { x: 4 * S, y: 5 * S, z: 6 * S };
    assert_eq!(v1.mul(&v2), Vec3 { x: 4 * S, y: 10 * S, z: 18 * S });
}

#[test]
fn test_mul_assign() {
    let mut v1 = Vec3 { x: S, y: 2 * S, z: 3 * S };
    let v2 = Vec3 { x: 4 * S, y: 5 * S, z: 6 * S };
    v1 = v1.mul(&v2);
    assert_eq!(v1, Vec3 { x: 4 * S, y: 10 * S, z: 18 * S });
}

#[test]
fn test_mul_scalar() {
    let v = Vec3 { x: S, y: 2 * S, z: 3 * S };
    assert_eq!(v.mul_scalar(2 * S), Vec3 { x: 2 * S, y: 4 * S, z: 6 * S });
}

#[test]
fn test_mul_assign_scalar() {
    let mut v = Vec3 { x: S, y: 2 * S, z: 3 * S };
    v = v.mul_scalar(2 * S);
    assert_eq!(v, Vec3 { x: 2 * S, y: 4 * S, z: 6 * S });
}

#[test]
fn test_div() {
    let v1 = Vec3 { x: S, y: 2 * S, z: 3 * S };
    let v2 = Vec3 { x: 4 * S, y: 5 * S, z: 6 * S };
    assert_eq!(v1.div(&v2), Vec3 { x: 2_500_000, y: 4_000_000, z: 5_000_000 });
}

#[test]
fn test_div_assign() {
    let mut v1 = Vec3 { x: S, y: 2 * S, z: 3 * S };
    let v2 = Vec3 { x: 4 * S, y: 5 * S, z: 6 * S };
    v1 = v1.div(&v2);
    assert_eq!(v1, Vec3 { x: 2_500_000, y: 4_000_000, z: 5_000_000 });
}

#[test]
fn test_div_scalar() {
    let v = Vec3 { x: S, y: 2 * S, z: 3 * S };
    assert_eq!(v.div_scalar(2 * S), Vec3 { x: S / 2, y: S, z: 3 * S / 2 });
}

#[test]
fn test_div_assign_scalar() {
    let mut v = Vec3 { x: S, y: 2 * S, z: 3 * S };
    v = v.div_scalar(2 * S);
    assert_eq!(v, Vec3 { x: S / 2, y: S, z: 3 * S / 2 });
}

#[test]
fn test_neg() {
    let v = Vec3 { x: S, y: 2 * S, z: 3 * S };
    assert_eq!(v.neg(), Vec3 { x: -S, y: -2 * S, z: -3 * S });
}

#[test]
fn math_test_reflect() {
    // 45 degrees.
    let incident = Vec3::new(S, -S, 0);
    let normal = Vec3::new(0, S, 0);
    let reflected = reflect(&incident, &normal);
    assert_eq!(reflected, Vec3::new(S, S, 0));

    // Slanted surface.
    let incident = Vec3::new(0, -S, 0);
    let normal = Vec3::new(7_071_067, 7_071_067, 0);
    let reflected = reflect(&incident, &normal);
    assert!(fuzzy_eq_vec(&reflected, &Vec3::new(S, 0, 0)));
}

#[test]
fn mod_test_reflect() {
    // 45 degrees.
    let incident = Vec3::new(S, -S, 0);
    let normal = Vec3::new(0, S, 0);
    let reflected = reflect(&incident, &normal);
    assert_eq!(reflected, Vec3::new(S, S, 0));

    // Slanted surface.
    let incident = Vec3::new(0, -S, 0);
    let normal = Vec3::new(7_071_067, 7_071_067, 0);
    let reflected = reflect(&incident, &normal);
    assert!(fuzzy_eq_vec(&reflected, &Vec3::new(S, 0, 0)));
}

#[test]
fn test_apply_matrix() {
    let p = Vec3 { x: S, y: 2 * S, z: 3 * S };
    let m = Matrix4::identity();
    let result = m.transform_point(&p);
    assert_eq!(result, p);
}
