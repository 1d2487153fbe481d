use ray_tracer::colour::Colour;
use ray_tracer::default_dims;
use ray_tracer::fixed::{fx_div, fx_floor, fx_frac, fx_mul, fx_sqrt, SCALE};
use ray_tracer::intersection::Intersection;
use ray_tracer::light::Light;
use ray_tracer::material::Material;
use ray_tracer::pattern::{Checkers, Gradient, Rings, Stripes};
use ray_tracer::transform::Transform;
use ray_tracer::vec3::Vec3;
use ray_tracer::Axis;

const S: i64 = SCALE;

fn fuzzy_eq_vec(a: &Vec3, b: &Vec3) -> bool {
    (a.x - b.x).abs() < 1_000 && (a.y - b.y).abs() < 1_000 && (a.z - b.z).abs() < 1_000
}

#[test]
fn it_works() {
}

#[test]
fn default_dims_are_hd() {
    assert_eq!(default_dims(), (1280, 720));
}

#[test]
fn fixed_point_arithmetic() {
    assert_eq!(fx_mul(2 * S, 3 * S), 6 * S);
    assert_eq!(fx_div(S, 3 * S), 3_333_333);
    assert_eq!(fx_sqrt(4 * S), 2 * S);
    assert_eq!(fx_sqrt(2 * S), 14_142_135);
    assert_eq!(fx_floor(-S / 2), -1);
    assert_eq!(fx_floor(3 * S / 2), 1);
    assert_eq!(fx_frac(-S / 2), S / 2);
    // Saturation instead of wrap-around at the end of the range.
    assert_eq!(fx_mul(i64::MAX, i64::MAX), i64::MAX);
    assert_eq!(fx_mul(i64::MIN, i64::MAX), i64::MIN);
}

#[test]
fn gamma_and_bytes() {
    let mut c = Colour::new(S, S / 4, 0);
    c.gamma_correct(1);
    assert_eq!(c, Colour::new(S, S / 2, 0));
    assert_eq!(c.to_rgb8(), (255, 128, 0));

    // The clamp holds channels above full intensity down.
    let bright = Colour::new(2 * S, S, -S);
    assert_eq!(bright.to_rgb8(), (255, 255, 0));
}

#[test]
fn stripes_alternate_on_x() {
    let a = Colour::new(S, S, S);
    let b = Colour::new(0, 0, 0);
    let p = Stripes::new(a, b);
    assert_eq!(p.colour_at_pattern(&Vec3::new(0, 0, 0)), a);
    assert_eq!(p.colour_at_pattern(&Vec3::new(9 * S / 10, 0, 0)), a);
    assert_eq!(p.colour_at_pattern(&Vec3::new(S, 0, 0)), b);
    assert_eq!(p.colour_at_pattern(&Vec3::new(-S / 10, 0, 0)), b);
}

#[test]
fn gradient_blends_on_x() {
    let a = Colour::new(0, 0, 0);
    let b = Colour::new(S, S, S);
    let p = Gradient::new(a, b);
    assert_eq!(p.colour_at_pattern(&Vec3::new(S / 4, 0, 0)), Colour::new(S / 4, S / 4, S / 4));
    assert_eq!(p.colour_at_pattern(&Vec3::new(3 * S / 4, 0, 0)),
        Colour::new(3 * S / 4, 3 * S / 4, 3 * S / 4));
}

#[test]
fn rings_alternate_radially() {
    let a = Colour::new(S, S, S);
    let b = Colour::new(0, 0, 0);
    let p = Rings::new(a, b);
    assert_eq!(p.colour_at_pattern(&Vec3::new(0, 0, 0)), a);
    assert_eq!(p.colour_at_pattern(&Vec3::new(S, 0, 0)), b);
    assert_eq!(p.colour_at_pattern(&Vec3::new(0, 0, 2 * S)), a);
}

#[test]
fn checkers_alternate_in_all_directions() {
    let a = Colour::new(S, S, S);
    let b = Colour::new(0, 0, 0);
    let p = Checkers::new(a, b);
    assert_eq!(p.colour_at_pattern(&Vec3::new(0, 0, 0)), a);
    assert_eq!(p.colour_at_pattern(&Vec3::new(101 * S / 100, 0, 0)), b);
    assert_eq!(p.colour_at_pattern(&Vec3::new(101 * S / 100, 0, 101 * S / 100)), a);
    assert_eq!(p.colour_at_pattern(&Vec3::new(0, 101 * S / 100, 0)), b);
}

#[test]
fn material_presets() {
    let glass = Material::glass();
    assert_eq!(glass.transparency, S);
    assert_eq!(glass.refractive_index, 15_200_000);
    assert_eq!(glass.reflect, 0);

    let metal = Material::metal(Colour::new(S, 0, 0), None);
    assert_eq!(metal.reflect, S);
    assert_eq!(metal.transparency, 0);

    let plastic = Material::plastic(Colour::new(S, 0, 0), None);
    assert_eq!(plastic.diffuse, S / 2);
    assert_eq!(plastic.reflect, 0);
}

#[test]
fn phong_straight_on() {
    // Eye straight between the light and the surface: full ambient,
    // diffuse and specular.
    let m = Material::default();
    let light = Light::new(Vec3::new(0, 0, -10 * S), Colour::new(S, S, S));
    let hit = Intersection {
        id: 0,
        obj_id: 0,
        point: Vec3::new(0, 0, 0),
        normal: Vec3::new(0, 0, -S),
        material: m,
        t: S,
        front_face: true,
        eye: Vec3::new(0, 0, -S),
        reflect: Vec3::new(0, 0, -S),
        colour: Colour::new(S, S, S),
        over_point: Vec3::new(0, 0, -1_000),
        under_point: Vec3::new(0, 0, 1_000),
        exit_idx: S,
        enter_idx: S,
    };
    let lit = m.light(&light, &hit, false);
    assert_eq!(lit, Colour::new(19 * S / 10, 19 * S / 10, 19 * S / 10));

    let shadowed = m.light(&light, &hit, true);
    assert_eq!(shadowed, Colour::new(S / 10, S / 10, S / 10));
}

#[test]
fn translation_round_trip_is_exact() {
    // Transforming by a chain of translations and then by the kept inverse
    // restores the point exactly.
    let mut t = Transform::new();
    t.translate(S, 2 * S, 3 * S);
    t.translate(-5 * S, S / 2, 7 * S);
    let p = Vec3::new(4 * S, -2 * S, S / 4);
    let moved = t.matrix.transform_point(&p);
    let back = t.inverse.transform_point(&moved);
    assert_eq!(back, p);
}

#[test]
fn transform_round_trip_within_tolerance() {
    // With scales and rotations in the chain the inverse is rounded, so the
    // round trip comes back within a tolerance rather than exactly.
    let mut t = Transform::new();
    t.translate(S, 2 * S, 3 * S);
    t.scale(2 * S, 4 * S, S / 2);
    t.rotate(Axis::Y, 7_853_982);
    t.rotate(Axis::X, -3_141_593);
    let p = Vec3::new(4 * S, -2 * S, S / 4);
    let moved = t.matrix.transform_point(&p);
    let back = t.inverse.transform_point(&moved);
    assert!(fuzzy_eq_vec(&back, &p));
}

#[test]
fn scale_moves_points_by_the_factors() {
    // A degenerate zero factor is ruled out by the operation's contract;
    // any other scale stretches points coordinate by coordinate.
    let mut t = Transform::new();
    t.scale(2 * S, 2 * S, 2 * S);
    let p = Vec3::new(S, S, S);
    let moved = t.matrix.transform_point(&p);
    assert_eq!(moved, Vec3::new(2 * S, 2 * S, 2 * S));
}
