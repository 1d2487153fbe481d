use ray_tracer::camera::Camera;
use ray_tracer::colour::Colour;
use ray_tracer::fixed::SCALE;
use ray_tracer::light::Light;
use ray_tracer::material::Material;
use ray_tracer::render::{render, render_pixel, render_row};
use ray_tracer::scene::Scene;
use ray_tracer::shapes::Sphere;
use ray_tracer::vec3::Vec3;

const S: i64 = SCALE;
const CENTRE: i64 = 5_000_000;

fn small_scene() -> (Scene, Camera) {
    let mut scene = Scene::default();
    scene.push(Sphere::new(Material::default()));
    scene.background = Colour::new(S / 10, S / 10, S / 10);
    scene.lights.push(Light::new(Vec3::new(-10 * S, 10 * S, -10 * S), Colour::new(S, S, S)));
    let camera = Camera::new(
        Vec3::new(0, 0, -5 * S),
        Vec3::new(0, 0, 0),
        Vec3::new(0, S, 0),
        90 * S,
        (4, 3),
        0,
    );
    (scene, camera)
}

#[test]
fn render_produces_rows_of_bytes() {
    let (scene, camera) = small_scene();
    let image = render(&scene, &camera, (4, 3), 1, 2);
    assert_eq!(image.len(), 3);
    for row in &image {
        assert_eq!(row.len(), 12);
    }
}

#[test]
fn single_sample_render_is_deterministic() {
    let (scene, camera) = small_scene();
    let image = render(&scene, &camera, (4, 3), 1, 2);
    let again = render(&scene, &camera, (4, 3), 1, 2);
    assert_eq!(image, again);

    // Each pixel agrees with rendering it alone from a centred sample.
    let jitters = vec![(CENTRE, CENTRE)];
    for y in 0..3u32 {
        for x in 0..4u32 {
            let px = render_pixel(&scene, &camera, x, y, &jitters, 2);
            let i = 3 * x as usize;
            assert_eq!((image[y as usize][i], image[y as usize][i + 1], image[y as usize][i + 2]),
                px);
        }
    }
}

#[test]
fn rows_assemble_in_order() {
    let (scene, camera) = small_scene();
    let image = render(&scene, &camera, (4, 3), 1, 2);
    for y in 0..3u32 {
        let row = render_row(&scene, &camera, y, 4, 1, 2);
        assert_eq!(image[y as usize], row);
    }
}

#[test]
fn multi_sample_render_has_the_same_shape() {
    let (scene, camera) = small_scene();
    let image = render(&scene, &camera, (2, 2), 4, 1);
    assert_eq!(image.len(), 2);
    for row in &image {
        assert_eq!(row.len(), 6);
    }
}

#[test]
fn background_shows_where_nothing_is_hit() {
    let mut scene = Scene::default();
    scene.background = Colour::new(S, 0, 0);
    scene.lights.push(Light::new(Vec3::new(0, 10 * S, 0), Colour::new(S, S, S)));
    let camera = Camera::new(
        Vec3::new(0, 0, -5 * S),
        Vec3::new(0, 0, 0),
        Vec3::new(0, S, 0),
        90 * S,
        (2, 2),
        0,
    );
    let image = render(&scene, &camera, (2, 2), 1, 1);
    // Every pixel is the gamma-corrected background: pure red.
    for row in &image {
        assert_eq!(row, &vec![255u8, 0, 0, 255, 0, 0]);
    }
}
