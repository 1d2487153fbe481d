use ray_tracer::camera::Camera;
use ray_tracer::fixed::SCALE;
use ray_tracer::matrix::Matrix4;
use ray_tracer::ray::Ray;
use ray_tracer::vec3::Vec3;
use ray_tracer::Axis;

const S: i64 = SCALE;
const CENTRE: i64 = 5_000_000;
const RT2_HALF: i64 = 7_071_067;
const QUARTER_TURN_HALF: i64 = 7_853_982;

fn fuzzy_eq_fx(a: i64, b: i64) -> bool {
    (a - b).abs() < 1_000
}

fn fuzzy_eq_vec(a: &Vec3, b: &Vec3) -> bool {
    (a.x - b.x).abs() < 1_000 && (a.y - b.y).abs() < 1_000 && (a.z - b.z).abs() < 1_000
}

#[test]
fn test_view_matrix() {
    let from = Vec3::new(0, 0, 0);
    let to = Vec3::new(0, 0, -S);
    let up = Vec3::new(0, S, 0);
    let view_matrix = Camera::view_matrix(from, to, up);
    assert_eq!(view_matrix, Matrix4::identity());

    let from = Vec3::new(0, 0, 0);
    let to = Vec3::new(0, 0, S);
    let up = Vec3::new(0, S, 0);
    let view_matrix = Camera::view_matrix(from, to, up);
    let flipped = Matrix4::new(
        -S, 0, 0, 0,
        0, S, 0, 0,
        0, 0, -S, 0,
        0, 0, 0, S,
    );
    assert_eq!(view_matrix, flipped);
}

#[test]
fn test_new_camera() {
    let camera = Camera::new(
        Vec3::new(0, 0, 0),
        Vec3::new(0, 0, -S),
        Vec3::new(0, S, 0),
        90 * S,
        (200, 125),
        0,
    );
    assert!(fuzzy_eq_fx(camera.pixel_size, S / 100));

    let camera = Camera::new(
        Vec3::new(0, 0, 0),
        Vec3::new(0, 0, -S),
        Vec3::new(0, S, 0),
        90 * S,
        (125, 200),
        0,
    );
    assert!(fuzzy_eq_fx(camera.pixel_size, S / 100));
}

#[test]
fn test_get_ray() {
    let mut camera = Camera::new(
        Vec3::new(0, 0, 0),
        Vec3::new(0, 0, -S),
        Vec3::new(0, S, 0),
        90 * S,
        (201, 101),
        0,
    );

    // Center of canvas.
    let ray1: Ray = camera.get_ray(100, 50, CENTRE, CENTRE);
    assert_eq!(ray1.origin, Vec3::new(0, 0, 0));
    assert!(fuzzy_eq_vec(&ray1.direction, &Vec3::new(0, 0, -S)));

    // Corner of canvas.
    let ray2: Ray = camera.get_ray(0, 0, CENTRE, CENTRE);
    assert_eq!(ray2.origin, Vec3::origin());
    assert!(fuzzy_eq_vec(&ray2.direction, &Vec3::new(6_651_900, 3_325_900, -6_685_100)));

    // Transformed camera.
    camera.rotate(Axis::Y, QUARTER_TURN_HALF);
    camera.translate(0, -2 * S, 5 * S);
    let ray3: Ray = camera.get_ray(100, 50, CENTRE, CENTRE);
    assert_eq!(ray3.origin, Vec3::new(0, 2 * S, -5 * S));
    assert!(fuzzy_eq_vec(&ray3.direction, &Vec3::new(RT2_HALF, 0, -RT2_HALF)));
}
