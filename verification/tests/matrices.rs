use ray_tracer::fixed::SCALE;
use ray_tracer::matrix::Matrix4;

const S: i64 = SCALE;

#[test]
fn test_new() {
    let m = Matrix4::new(
        S, 2 * S, 3 * S, 0,
        4 * S, 5 * S, 6 * S, 0,
        7 * S, 8 * S, 9 * S, 0,
        0, 0, 0, 0,
    );
    assert_eq!(m.m21, 8 * S);

    let n = Matrix4::new(
        S, 2 * S, 3 * S, 0,
        0, 0, 0, 0,
        0, 0, 0, 0,
        0, 0, 0, 0,
    );
    assert_eq!(n.m02, 3 * S);
}

#[test]
fn test_identity() {
    let m = Matrix4::identity();
    assert_eq!(m.m00, S);
    assert_eq!(m.m11, S);
    assert_eq!(m.m22, S);
    assert_eq!(m.m01, 0);
    assert_eq!(m.m02, 0);
    assert_eq!(m.m10, 0);
}

#[test]
fn matrix_test_add() {
    let a = Matrix4::new(
        S, 2 * S, 0, 0,
        3 * S, 4 * S, 0, 0,
        0, 0, 0, 0,
        0, 0, 0, 0,
    );
    let b = Matrix4::new(
        S, 2 * S, 0, 0,
        3 * S, 4 * S, 0, 0,
        0, 0, 0, 0,
        0, 0, 0, 0,
    );
    let c = a.add(&b);
    assert_eq!(c.m00, 2 * S);
    assert_eq!(c.m01, 4 * S);
}

#[test]
fn matrix_test_add_assign() {
    let mut a = Matrix4::new(
        S, 2 * S, 0, 0,
        3 * S, 4 * S, 0, 0,
        0, 0, 0, 0,
        0, 0, 0, 0,
    );
    let b = Matrix4::new(
        S, 2 * S, 0, 0,
        3 * S, 4 * S, 0, 0,
        0, 0, 0, 0,
        0, 0, 0, 0,
    );
    a = a.add(&b);
    assert_eq!(a.m00, 2 * S);
    assert_eq!(a.m01, 4 * S);
}

#[test]
fn matrix_test_sub() {
    let a = Matrix4::new(
        S, 2 * S, 0, 0,
        3 * S, 4 * S, 0, 0,
        0, 0, 0, 0,
        0, 0, 0, 0,
    );
    let b = Matrix4::new(
        S, 2 * S, 0, 0,
        3 * S, 4 * S, 0, 0,
        0, 0, 0, 0,
        0, 0, 0, 0,
    );
    let c = a.sub(&b);
    assert_eq!(c.m00, 0);
    assert_eq!(c.m01, 0);
}

#[test]
fn matrix_test_sub_assign() {
    let mut a = Matrix4::new(
        S, 2 * S, 0, 0,
        3 * S, 4 * S, 0, 0,
        0, 0, 0, 0,
        0, 0, 0, 0,
    );
    let b = Matrix4::new(
        S, 2 * S, 0, 0,
        3 * S, 4 * S, 0, 0,
        0, 0, 0, 0,
        0, 0, 0, 0,
    );
    a = a.sub(&b);
    assert_eq!(a.m00, 0);
    assert_eq!(a.m01, 0);
}

#[test]
fn test_multiply() {
    let a = Matrix4::new(
        S, 2 * S, 3 * S, 0,
        4 * S, 5 * S, 6 * S, 0,
        7 * S, 8 * S, 9 * S, 0,
        0, 0, 0, 0,
    );
    let b = Matrix4::new(
        S, 2 * S, 3 * S, 0,
        4 * S, 5 * S, 6 * S, 0,
        7 * S, 8 * S, 9 * S, 0,
        0, 0, 0, 0,
    );
    let c = a.multiply(&b);
    assert_eq!(c.m00, 30 * S);
    assert_eq!(c.m10, 66 * S);
    assert_eq!(c.m11, 81 * S);
    assert_eq!(c.m20, 102 * S);

    let d = Matrix4::new(
        4 * S, 0, 0, 0,
        5 * S, 0, 0, 0,
        6 * S, 0, 0, 0,
        0, 0, 0, 0,
    );
    let e = Matrix4::new(
        7 * S, 8 * S, 9 * S, 0,
        0, 0, 0, 0,
        0, 0, 0, 0,
        0, 0, 0, 0,
    );
    let f = d.multiply(&e);
    assert_eq!(f.m00, 28 * S);
    assert_eq!(f.m02, 36 * S);
    assert_eq!(f.m11, 40 * S);
}

#[test]
fn negation_flips_every_entry() {
    let a = Matrix4::new(
        S, -2 * S, 0, 0,
        0, 3 * S, 0, 0,
        0, 0, -4 * S, 0,
        0, 0, 0, S,
    );
    let n = a.neg();
    assert_eq!(n.m00, -S);
    assert_eq!(n.m01, 2 * S);
    assert_eq!(n.m11, -3 * S);
    assert_eq!(n.m22, 4 * S);
}

#[test]
fn scalar_multiplication_scales_every_entry() {
    let a = Matrix4::new(
        S, 2 * S, 0, 0,
        0, 3 * S, 0, 0,
        0, 0, 4 * S, 0,
        0, 0, 0, S,
    );
    let m = a.multiply_scaler(2 * S);
    assert_eq!(m.m00, 2 * S);
    assert_eq!(m.m01, 4 * S);
    assert_eq!(m.m11, 6 * S);
    assert_eq!(m.m22, 8 * S);
}

#[test]
fn transpose_swaps_rows_and_columns() {
    let a = Matrix4::new(
        S, 2 * S, 3 * S, 4 * S,
        5 * S, 6 * S, 7 * S, 8 * S,
        9 * S, 10 * S, 11 * S, 12 * S,
        13 * S, 14 * S, 15 * S, 16 * S,
    );
    let t = a.transpose();
    assert_eq!(t.m01, 5 * S);
    assert_eq!(t.m10, 2 * S);
    assert_eq!(t.m32, 12 * S);
}
