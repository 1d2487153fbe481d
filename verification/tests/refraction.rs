use ray_tracer::colour::Colour;
use ray_tracer::fixed::SCALE;
use ray_tracer::intersection::compute_intersections;
use ray_tracer::material::Material;
use ray_tracer::ray::Ray;
use ray_tracer::scene::Scene;
use ray_tracer::shapes::Sphere;
use ray_tracer::vec3::Vec3;

const S: i64 = SCALE;

fn fuzzy_eq_fx(a: i64, b: i64) -> bool {
    (a - b).abs() < 1_000
}

fn glass_like(refractive_index: i64) -> Material {
    Material {
        colour: Colour::black(),
        pattern: None,
        ambient: S / 10,
        diffuse: 0,
        specular: 0,
        shininess: 0,
        reflect: 0,
        refractive_index,
        transparency: S,
    }
}

#[test]
fn test_refraction() {
    let mut scene = Scene::default();
    // 2 glass spheres inside a larger glass sphere.
    let mut outer_sphere = Sphere::new(glass_like(15_000_000));
    outer_sphere.scale_uniform(2 * S);
    let mut inner_sphere1 = Sphere::new(glass_like(20_000_000));
    inner_sphere1.translate(0, 0, -S / 4);
    let mut inner_sphere2 = Sphere::new(glass_like(25_000_000));
    inner_sphere2.translate(0, 0, S / 4);

    scene.push(outer_sphere);
    scene.push(inner_sphere1);
    scene.push(inner_sphere2);

    let ray = Ray::new(Vec3::new(0, 0, -4 * S), Vec3::new(0, 0, S));
    let mut hits = scene.hit(&ray, 1_000, i64::MAX);
    assert_eq!(hits.len(), 6);
    compute_intersections(&mut hits);

    assert_eq!(hits[0].exit_idx, 10_000_000);
    assert_eq!(hits[0].enter_idx, 15_000_000);

    assert_eq!(hits[1].exit_idx, 15_000_000);
    assert_eq!(hits[1].enter_idx, 20_000_000);

    assert_eq!(hits[2].exit_idx, 20_000_000);
    assert_eq!(hits[2].enter_idx, 25_000_000);

    assert_eq!(hits[3].exit_idx, 25_000_000);
    assert_eq!(hits[3].enter_idx, 25_000_000);

    assert_eq!(hits[4].exit_idx, 25_000_000);
    assert_eq!(hits[4].enter_idx, 15_000_000);

    assert_eq!(hits[5].exit_idx, 15_000_000);
    assert_eq!(hits[5].enter_idx, 10_000_000);
}

#[test]
fn test_reflectance_perp() {
    let mut scene = Scene::default();
    let sphere = Sphere::new(Material {
        transparency: S,
        refractive_index: 15_000_000,
        ..Material::default()
    });
    scene.push(sphere);

    let ray = Ray::new(Vec3::origin(), Vec3::new(0, S, 0));
    let mut hits = scene.hit(&ray, i64::MIN, i64::MAX);
    compute_intersections(&mut hits);
    hits.iter().for_each(|hit| {
        println!("reflectance: {:?}", hit);
    });
}

#[test]
fn test_reflectance_small_angle() {
    let mut scene = Scene::default();
    let sphere = Sphere::new(Material {
        transparency: S,
        refractive_index: 15_000_000,
        ..Material::default()
    });
    scene.push(sphere);

    let ray = Ray::new(Vec3::origin(), Vec3::new(0, 9_900_000, -1_000_000));
    let mut hits = scene.hit(&ray, i64::MIN, i64::MAX);
    compute_intersections(&mut hits);
    assert!(fuzzy_eq_fx(hits[1].schlick(), 400_000));

    // n2 > n1
    let ray = Ray::new(Vec3::new(0, 9_900_000, -2 * S), Vec3::new(0, 0, S));
    let mut hits = scene.hit(&ray, i64::MIN, i64::MAX);
    compute_intersections(&mut hits);
    assert!(fuzzy_eq_fx(hits[0].schlick(), 4_887_300));
}
