use ray_tracer::colour::Colour;
use ray_tracer::fixed::SCALE;
use ray_tracer::intersection::compute_intersections;
use ray_tracer::light::Light;
use ray_tracer::material::Material;
use ray_tracer::ray::Ray;
use ray_tracer::scene::Scene;
use ray_tracer::shapes::{Plane, Sphere};
use ray_tracer::vec3::Vec3;

const S: i64 = SCALE;
const RT2_HALF: i64 = 7_071_067;

fn fuzzy_eq_colour(a: Colour, b: Colour) -> bool {
    (a.r - b.r).abs() < 1_000 && (a.g - b.g).abs() < 1_000 && (a.b - b.b).abs() < 1_000
}

fn default_sphere() -> ray_tracer::object::Object {
    Sphere::new(Material::new(
        Colour::new(8 * S / 10, S, 6 * S / 10),
        None,
        S / 10,
        7 * S / 10,
        2 * S / 10,
        200 * S,
        0,
        0,
        S,
    ))
}

fn default_light() -> Light {
    Light::new(Vec3::new(-10 * S, 10 * S, -10 * S), Colour::new(S, S, S))
}

#[test]
fn test_nonreflective_colour() {
    let mut scene = Scene::default();
    scene.push(default_sphere());

    let mut sphere2 = Sphere::new(Material::new(
        Colour::new(8 * S / 10, S, 6 * S / 10),
        None,
        S,
        7 * S / 10,
        2 * S / 10,
        200 * S,
        0,
        0,
        S,
    ));
    sphere2.scale_uniform(S / 2);
    scene.push(sphere2);

    scene.lights.push(default_light());

    let ray = Ray::new(Vec3::origin(), Vec3::new(0, 0, S));
    let hit_rec = &scene.hit(&ray, 1_000, i64::MAX)[0];
    let colour = scene.reflected_colour_at(&scene.objects[1].material, hit_rec, 1);
    assert_eq!(colour, Colour::new(0, 0, 0));
}

#[test]
fn test_reflective_material() {
    let mut scene = Scene::default();
    scene.push(default_sphere());

    let mut plane = Plane::new(Material::new(
        Colour::new(8 * S / 10, S, 6 * S / 10),
        None,
        S / 10,
        7 * S / 10,
        2 * S / 10,
        200 * S,
        S / 2,
        0,
        S,
    ));
    plane.translate(0, -S, 0);
    scene.push(plane);

    scene.lights.push(default_light());

    let ray = Ray::new(Vec3::new(0, 0, -3 * S), Vec3::new(0, -RT2_HALF, RT2_HALF));
    let hit_rec = &scene.hit(&ray, 1_000, i64::MAX)[0];
    let colour = scene.reflected_colour_at(&scene.objects[1].material, hit_rec, 1);
    // 0.5 reflectiveness so should be half the colour of the light.
    assert!(fuzzy_eq_colour(colour, Colour::new(1_903_200, 2_379_000, 1_427_400)));
}

#[test]
fn test_refraction_opaque() {
    let mut scene = Scene::default();
    scene.push(default_sphere());
    scene.lights.push(default_light());

    let ray = Ray::new(Vec3::new(0, 0, -5 * S), Vec3::new(0, 0, S));
    let mut intersections = scene.hit(&ray, 1_000, i64::MAX);
    compute_intersections(&mut intersections);
    let hit = intersections[0];
    let colour = scene.refracted_colour_at(&hit.material, &hit, 5);
    assert_eq!(colour, Colour::black());
}

#[test]
fn test_refraction_max_depth() {
    let mut scene = Scene::default();
    scene.push(default_sphere());
    scene.lights.push(default_light());

    let ray = Ray::new(Vec3::new(0, 0, -5 * S), Vec3::new(0, 0, S));
    let mut intersections = scene.hit(&ray, 1_000, i64::MAX);
    compute_intersections(&mut intersections);
    let hit = intersections[0];
    let colour = scene.refracted_colour_at(&hit.material, &hit, 0);
    assert_eq!(colour, Colour::black());
}

#[test]
fn test_colour_at() {
    let mut scene = Scene::default();
    let sphere1 = default_sphere();
    let mut sphere2 = Sphere::new(Material::default());
    sphere2.scale_uniform(S / 2);
    scene.push(sphere1);
    scene.push(sphere2);

    let mut plane = Plane::new(Material {
        transparency: S / 2,
        refractive_index: 15_000_000,
        ..Material::default()
    });
    plane.translate(0, -S, 0);
    scene.push(plane);

    let mut sphere3 = Sphere::new(Material {
        colour: Colour::new(S, 0, 0),
        ambient: S / 2,
        ..Material::default()
    });
    sphere3.translate(0, -7 * S / 2, -S / 2);
    scene.push(sphere3);

    scene.lights.push(default_light());

    let ray = Ray::new(Vec3::new(0, 0, -3 * S), Vec3::new(0, -RT2_HALF, RT2_HALF));
    let colour = scene.colour_at(&ray, 5);
    assert!(fuzzy_eq_colour(colour, Colour::new(9_364_200, 6_864_200, 6_864_200)));
}
