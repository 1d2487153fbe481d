use ray_tracer::fixed::SCALE;
use ray_tracer::material::Material;
use ray_tracer::object::{Object, Shape};
use ray_tracer::ray::Ray;
use ray_tracer::shapes::{AxisAlignedBoundingBox, Cone, Cylinder, Disk, Plane, Sphere};
use ray_tracer::vec3::Vec3;

const S: i64 = SCALE;
const INF: i64 = i64::MAX;
const NEG_INF: i64 = i64::MIN;

fn fuzzy_eq_vec(a: &Vec3, b: &Vec3) -> bool {
    (a.x - b.x).abs() < 1_000 && (a.y - b.y).abs() < 1_000 && (a.z - b.z).abs() < 1_000
}

fn default_cylinder() -> Object {
    Cylinder::new(Material::default(), NEG_INF, INF, false)
}

#[test]
fn test_cylinder_miss() {
    let cyl = default_cylinder();

    let ray = Ray::new(Vec3::new(S, 0, 0), Vec3::new(0, S, 0));
    let t = cyl.hit(&ray, NEG_INF, INF);
    assert!(t.is_empty());

    let ray = Ray::new(Vec3::new(0, 0, 0), Vec3::new(0, S, 0));
    let t = cyl.hit(&ray, NEG_INF, INF);
    assert!(t.is_empty());

    let ray = Ray::new(Vec3::new(0, 0, -5 * S), Vec3::new(S, S, S));
    let t = cyl.hit(&ray, NEG_INF, INF);
    assert!(t.is_empty());
}

#[test]
fn test_cylinder_hit() {
    let cyl = default_cylinder();

    let ray = Ray::new(Vec3::new(S, 0, -5 * S), Vec3::new(0, 0, S));
    let t = cyl.hit(&ray, NEG_INF, INF);
    assert_eq!(t[0].t, 5 * S);
    assert_eq!(t[1].t, 5 * S);

    let ray = Ray::new(Vec3::new(0, 0, -5 * S), Vec3::new(0, 0, S));
    let t = cyl.hit(&ray, NEG_INF, INF);
    assert_eq!(t[0].t, 4 * S);
    assert_eq!(t[1].t, 6 * S);
}

#[test]
fn test_cylinder_truncation() {
    let cyl = Cylinder::new(Material::default(), S, 2 * S, false);

    let ray = Ray::new(Vec3::new(0, 3 * S / 2, 0), Vec3::new(S / 10, S, 0));
    println!("{:?}", cyl.hit(&ray, NEG_INF, INF));
    assert!(cyl.hit(&ray, NEG_INF, INF).is_empty());

    let ray = Ray::new(Vec3::new(0, 3 * S, -5 * S), Vec3::new(0, 0, S));
    assert!(cyl.hit(&ray, NEG_INF, INF).is_empty());

    let ray = Ray::new(Vec3::new(0, 3 * S / 2, -2 * S), Vec3::new(0, 0, S));
    assert_eq!(cyl.hit(&ray, NEG_INF, INF).len(), 2);
}

#[test]
fn test_cylinder_hit_cap() {
    let cyl = Cylinder::new(Material::default(), S, 2 * S, true);

    let ray = Ray::new(Vec3::new(0, 3 * S, 0), Vec3::new(0, -S, 0));
    assert_eq!(cyl.hit(&ray, NEG_INF, INF).len(), 2);

    let ray = Ray::new(Vec3::new(0, 3 * S, -2 * S), Vec3::new(0, -S, 2 * S));
    assert_eq!(cyl.hit(&ray, NEG_INF, INF).len(), 2);

    let ray = Ray::new(Vec3::new(0, 4 * S, -2 * S), Vec3::new(0, -S, S));
    assert_eq!(cyl.hit(&ray, NEG_INF, INF).len(), 2);

    let ray = Ray::new(Vec3::new(0, 0, -2 * S), Vec3::new(0, S, 2 * S));
    assert_eq!(cyl.hit(&ray, NEG_INF, INF).len(), 2);
}

#[test]
fn test_cylinder_obj_normal() {
    let cyl = Cylinder::new(Material::default(), S, 2 * S, true);

    let point = Vec3::new(0, S, 0);
    assert_eq!(cyl.normal_at(&point), Vec3::new(0, -S, 0));

    let point = Vec3::new(S / 2, S, 0);
    assert_eq!(cyl.normal_at(&point), Vec3::new(0, -S, 0));

    let point = Vec3::new(0, 2 * S, 0);
    assert_eq!(cyl.normal_at(&point), Vec3::new(0, S, 0));
}

#[test]
fn test_cone_hit() {
    let cone = Cone::new(Material::default(), NEG_INF, INF, false);

    let ray = Ray::new(Vec3::new(0, 0, -5 * S), Vec3::new(0, 0, S));
    let t = cone.hit(&ray, 0, INF);
    assert_eq!(t[0].t, 5 * S);
    assert_eq!(t[1].t, 5 * S);

    let ray = Ray::new(Vec3::new(0, 0, -5 * S), Vec3::new(S, S, S));
    let t = cone.hit(&ray, 0, INF);
    println!("{:?}", t[0].t);
}

#[test]
fn test_bbox_hit() {
    let bbox = AxisAlignedBoundingBox::new(Material::default());

    // Check axis.
    // x +
    let ray = Ray::new(Vec3::new(5 * S, S / 2, 0), Vec3::new(-S, 0, 0));
    let hit = bbox.hit_obj(&ray, NEG_INF, INF);
    assert_eq!(hit, vec![4 * S, 6 * S]);

    // x -
    let ray = Ray::new(Vec3::new(-5 * S, S / 2, 0), Vec3::new(S, 0, 0));
    let hit = bbox.hit_obj(&ray, NEG_INF, INF);
    assert_eq!(hit, vec![4 * S, 6 * S]);

    // y +
    let ray = Ray::new(Vec3::new(S / 2, 5 * S, 0), Vec3::new(0, -S, 0));
    let hit = bbox.hit_obj(&ray, NEG_INF, INF);
    assert_eq!(hit, vec![4 * S, 6 * S]);

    // y -
    let ray = Ray::new(Vec3::new(S / 2, -5 * S, 0), Vec3::new(0, S, 0));
    let hit = bbox.hit_obj(&ray, NEG_INF, INF);
    assert_eq!(hit, vec![4 * S, 6 * S]);

    // z +
    let ray = Ray::new(Vec3::new(S / 2, 0, 5 * S), Vec3::new(0, 0, -S));
    let hit = bbox.hit_obj(&ray, NEG_INF, INF);
    assert_eq!(hit, vec![4 * S, 6 * S]);

    // z -
    let ray = Ray::new(Vec3::new(S / 2, 0, -5 * S), Vec3::new(0, 0, S));
    let hit = bbox.hit_obj(&ray, NEG_INF, INF);
    assert_eq!(hit, vec![4 * S, 6 * S]);

    // Inside.
    let ray = Ray::new(Vec3::new(0, S / 2, 0), Vec3::new(0, 0, S));
    let hit = bbox.hit_obj(&ray, NEG_INF, INF);
    assert_eq!(hit, vec![-S, S]);
}

#[test]
fn test_bbox_miss() {
    let bbox = AxisAlignedBoundingBox::new(Material::default());

    let ray = Ray::new(Vec3::new(-2 * S, 0, 0), Vec3::new(2_673_000, 5_345_000, 8_018_000));
    let hit = bbox.hit_obj(&ray, NEG_INF, INF);
    assert!(hit.is_empty());

    let ray = Ray::new(Vec3::new(0, -2 * S, 0), Vec3::new(8_018_000, 2_673_000, 5_345_000));
    let hit = bbox.hit_obj(&ray, NEG_INF, INF);
    assert!(hit.is_empty());

    let ray = Ray::new(Vec3::new(2 * S, 2 * S, 0), Vec3::new(-S, 0, 0));
    let hit = bbox.hit_obj(&ray, NEG_INF, INF);
    assert!(hit.is_empty());
}

#[test]
fn test_bbox_normal_obj() {
    let bbox = AxisAlignedBoundingBox::new(Material::default());

    let obj_norm = bbox.normal_obj(&Vec3::new(S, S / 2, -8 * S / 10));
    assert_eq!(obj_norm, Vec3::new(S, 0, 0));

    let obj_norm = bbox.normal_obj(&Vec3::new(-S, -2 * S / 10, 9 * S / 10));
    assert_eq!(obj_norm, Vec3::new(-S, 0, 0));

    let obj_norm = bbox.normal_obj(&Vec3::new(4 * S / 10, 4 * S / 10, -S));
    assert_eq!(obj_norm, Vec3::new(0, 0, -S));
}

#[test]
fn test_hit() {
    let plane = Plane::new(Material::default());
    let ray = Ray::new(Vec3::new(0, S, -S), Vec3::new(0, -7_071_067, 7_071_067));
    let ints = plane.hit(&ray, 0, INF);
    assert!(!ints.is_empty());
    let int = &ints[0];
    assert!(fuzzy_eq_vec(&int.point, &Vec3::new(0, 0, 0)));
    assert!(fuzzy_eq_vec(&int.normal, &Vec3::new(0, S, 0)));
    assert!(fuzzy_eq_vec(&int.reflect, &Vec3::new(0, 7_071_067, 7_071_067)));
}

#[test]
fn sphere_roots_through_centre() {
    // A ray through the middle of the unit sphere leaves two distinct
    // roots, at four and six.
    let sphere = Sphere::new(Material::default());
    let ray = Ray::new(Vec3::new(0, 0, -5 * S), Vec3::new(0, 0, S));
    let roots = sphere.hit_obj(&ray, NEG_INF, INF);
    assert_eq!(roots, vec![4 * S, 6 * S]);
}

#[test]
fn sphere_roots_tangent() {
    // A grazing ray leaves two equal roots.
    let sphere = Sphere::new(Material::default());
    let ray = Ray::new(Vec3::new(0, S, -5 * S), Vec3::new(0, 0, S));
    let roots = sphere.hit_obj(&ray, NEG_INF, INF);
    assert_eq!(roots.len(), 2);
    assert_eq!(roots[0], roots[1]);
}

#[test]
fn disk_rejects_point_outside_radius() {
    // The same ray satisfies the infinite plane's equation but lands two
    // units from the axis, so the disk rejects it where the plane keeps it.
    let disk = Disk::new(Material::default());
    let plane = Plane::new(Material::default());
    let ray = Ray::new(Vec3::new(2 * S, S, 0), Vec3::new(0, -S, 0));
    assert_eq!(plane.hit_obj(&ray, 0, INF), vec![S]);
    assert!(disk.hit_obj(&ray, 0, INF).is_empty());

    // Inside the unit radius the disk keeps the plane's root.
    let ray = Ray::new(Vec3::new(S / 2, S, 0), Vec3::new(0, -S, 0));
    assert_eq!(disk.hit_obj(&ray, 0, INF), vec![S]);
}

#[test]
fn shapes_carry_their_configuration() {
    let cyl = Cylinder::new(Material::default(), -S, S, true);
    match cyl.shape {
        Shape::Cylinder(c) => {
            assert_eq!(c.min, -S);
            assert_eq!(c.max, S);
            assert!(c.capped);
        }
        _ => panic!("expected a cylinder"),
    }
}
