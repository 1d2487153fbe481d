//! The render loop: for every pixel, accumulate jittered samples of the
//! scene's colour, gamma-correct, and pack bytes into rows.

use vstd::prelude::*;

use rand::RngExt;

use crate::camera::{get_ray_spec, Camera};
use crate::colour::{black, cadd, cgamma, channel_byte, Colour};
use crate::fixed::SCALE;
use crate::light::Light;
use crate::object::Object;
use crate::ray::Ray;
use crate::scene::{scene_colour_at, Scene};

verus! {

/// A rendered image: one row of `3 * width` bytes per scanline.
pub type Image = Vec<Vec<u8>>;

/// The jitter that lands a sample in the middle of its pixel.
pub const CENTRE_JITTER: i64 = 5_000_000;

/// Relies on rand's thread-local generator sampling a uniform range: some
/// value below the bound comes back.
#[verifier::external_body]
fn random_below(bound: u64) -> (r: u64)
    requires
        bound > 0,
    ensures
        r < bound,
{
    rand::rng().random_range(0..bound)
}

/// A random sub-pixel offset in `[0, 1)`.
fn sample_jitter() -> (j: i64)
    ensures
        0 <= j < SCALE,
{
    let r: u64 = random_below(SCALE as u64);
    r as i64
}

/// The jitter list used for a single-sample render: one centred sample.
pub open spec fn centre_jitters() -> Seq<(i64, i64)> {
    seq![(CENTRE_JITTER as i64, CENTRE_JITTER as i64)]
}

/// One sub-pixel offset pair per sample; a single sample sits at the pixel
/// centre, several are scattered at random.
fn gen_jitters(samples: u32) -> (v: Vec<(i64, i64)>)
    requires
        samples > 0,
    ensures
        v@.len() == samples as int,
        forall|i: int|
            0 <= i < v@.len() ==> 0 <= #[trigger] v@[i].0 < SCALE && 0 <= v@[i].1 < SCALE,
        samples == 1 ==> v@ == centre_jitters(),
{
    let mut v: Vec<(i64, i64)> = Vec::new();
    if samples == 1 {
        v.push((CENTRE_JITTER, CENTRE_JITTER));
        proof {
            assert(v@ =~= centre_jitters());
        }
        return v;
    }
    let mut i: u32 = 0;
    while i < samples
        invariant
            0 <= i <= samples,
            v@.len() == i as int,
            forall|j: int|
                0 <= j < v@.len() ==> 0 <= #[trigger] v@[j].0 < SCALE && 0 <= v@[j].1 < SCALE,
        decreases samples - i,
    {
        let jx: i64 = sample_jitter();
        let jy: i64 = sample_jitter();
        v.push((jx, jy));
        i = i + 1;
    }
    v
}

/// The colour accumulated over one pixel's samples, in sample order.
pub open spec fn pixel_sum_spec(
    objects: Seq<Object>,
    lights: Seq<Light>,
    background: Colour,
    cam: Camera,
    x: u32,
    y: u32,
    jitters: Seq<(i64, i64)>,
    depth: nat,
) -> Colour
    decreases jitters.len(),
{
    if jitters.len() == 0 {
        black()
    } else {
        let j = jitters.last();
        cadd(
            pixel_sum_spec(objects, lights, background, cam, x, y, jitters.drop_last(), depth),
            scene_colour_at(objects, lights, background, get_ray_spec(cam, x, y, j.0, j.1), depth),
        )
    }
}

/// The three bytes of one pixel: the accumulated colour averaged over the
/// samples, gamma-corrected, clamped and scaled to eight bits.
#[verifier::opaque]
pub open spec fn render_pixel_spec(
    objects: Seq<Object>,
    lights: Seq<Light>,
    background: Colour,
    cam: Camera,
    x: u32,
    y: u32,
    jitters: Seq<(i64, i64)>,
    depth: nat,
) -> (u8, u8, u8) {
    let summed = pixel_sum_spec(objects, lights, background, cam, x, y, jitters, depth);
    let corrected = cgamma(summed, (jitters.len() * SCALE as int) as i64);
    (channel_byte(corrected.r), channel_byte(corrected.g), channel_byte(corrected.b))
}

/// The colour of one sample: the scene looked at along the jittered camera
/// ray.
fn sample_colour(
    scene: &Scene,
    camera: &Camera,
    x: u32,
    y: u32,
    jx: i64,
    jy: i64,
    max_depth: usize,
) -> (c: Colour)
    requires
        scene.lights@.len() > 0,
    ensures
        c == scene_colour_at(
            scene.objects@,
            scene.lights@,
            scene.background,
            get_ray_spec(*camera, x, y, jx, jy),
            max_depth as nat,
        ),
{
    let ray: Ray = camera.get_ray(x, y, jx, jy);
    scene.colour_at(&ray, max_depth)
}

/// Render one pixel from a given list of sample jitters.
#[verifier::rlimit(100)]
pub fn render_pixel(
    scene: &Scene,
    camera: &Camera,
    x: u32,
    y: u32,
    jitters: &Vec<(i64, i64)>,
    max_depth: usize,
) -> (px: (u8, u8, u8))
    requires
        scene.lights@.len() > 0,
        0 < jitters@.len() <= u32::MAX,
    ensures
        px == render_pixel_spec(
            scene.objects@,
            scene.lights@,
            scene.background,
            *camera,
            x,
            y,
            jitters@,
            max_depth as nat,
        ),
{
    proof {
        reveal(render_pixel_spec);
    }
    let mut pixel_colour: Colour = Colour::black();
    let mut s: usize = 0;
    while s < jitters.len()
        invariant
            0 <= s <= jitters@.len(),
            scene.lights@.len() > 0,
            pixel_colour == pixel_sum_spec(
                scene.objects@,
                scene.lights@,
                scene.background,
                *camera,
                x,
                y,
                jitters@.take(s as int),
                max_depth as nat,
            ),
        decreases jitters@.len() - s,
    {
        proof {
            assert(jitters@.take(s as int + 1).drop_last() =~= jitters@.take(s as int));
            assert(jitters@.take(s as int + 1).last() == jitters@[s as int]);
        }
        let j: (i64, i64) = jitters[s];
        pixel_colour = pixel_colour.add(&sample_colour(scene, camera, x, y, j.0, j.1, max_depth));
        s = s + 1;
    }
    proof {
        assert(jitters@.take(jitters@.len() as int) =~= jitters@);
    }
    let samples: u32 = jitters.len() as u32;
    pixel_colour.gamma_correct(samples);
    pixel_colour.to_rgb8()
}

/// Render one scanline; with one sample per pixel the bytes are exactly the
/// centred-sample pixels.
#[verifier::rlimit(100)]
pub fn render_row(
    scene: &Scene,
    camera: &Camera,
    y: u32,
    width: u32,
    samples_per_pixel: u32,
    max_depth: usize,
) -> (row: Vec<u8>)
    requires
        scene.lights@.len() > 0,
        samples_per_pixel > 0,
    ensures
        row@.len() == 3 * width as int,
        samples_per_pixel == 1 ==> forall|x: int|
            0 <= x < width as int ==> (row@[3 * x], row@[3 * x + 1], row@[3 * x + 2])
                == #[trigger] render_pixel_spec(
                scene.objects@,
                scene.lights@,
                scene.background,
                *camera,
                x as u32,
                y,
                centre_jitters(),
                max_depth as nat,
            ),
{
    let mut row: Vec<u8> = Vec::new();
    let mut x: u32 = 0;
    while x < width
        invariant
            0 <= x <= width,
            scene.lights@.len() > 0,
            samples_per_pixel > 0,
            row@.len() == 3 * x as int,
            samples_per_pixel == 1 ==> forall|i: int|
                0 <= i < x as int ==> (row@[3 * i], row@[3 * i + 1], row@[3 * i + 2])
                    == #[trigger] render_pixel_spec(
                    scene.objects@,
                    scene.lights@,
                    scene.background,
                    *camera,
                    i as u32,
                    y,
                    centre_jitters(),
                    max_depth as nat,
                ),
        decreases width - x,
    {
        let jitters: Vec<(i64, i64)> = gen_jitters(samples_per_pixel);
        let px: (u8, u8, u8) = render_pixel(scene, camera, x, y, &jitters, max_depth);
        row.push(px.0);
        row.push(px.1);
        row.push(px.2);
        x = x + 1;
    }
    row
}

/// Render the whole image row by row; with one sample per pixel every byte
/// is pinned down exactly.
#[verifier::rlimit(100)]
pub fn render(
    scene: &Scene,
    camera: &Camera,
    dimensions: (u32, u32),
    samples_per_pixel: u32,
    max_depth: usize,
) -> (image: Image)
    requires
        scene.lights@.len() > 0,
        samples_per_pixel > 0,
    ensures
        image@.len() == dimensions.1 as int,
        forall|y: int| 0 <= y < image@.len() ==> (#[trigger] image@[y])@.len() == 3
            * dimensions.0 as int,
        samples_per_pixel == 1 ==> forall|y: int, x: int|
            0 <= y < dimensions.1 as int && 0 <= x < dimensions.0 as int ==> (image@[y]@[3 * x],
            image@[y]@[3 * x + 1], image@[y]@[3 * x + 2]) == #[trigger] render_pixel_spec(
                scene.objects@,
                scene.lights@,
                scene.background,
                *camera,
                x as u32,
                y as u32,
                centre_jitters(),
                max_depth as nat,
            ),
{
    let mut image: Image = Vec::new();
    let mut y: u32 = 0;
    while y < dimensions.1
        invariant
            0 <= y <= dimensions.1,
            scene.lights@.len() > 0,
            samples_per_pixel > 0,
            image@.len() == y as int,
            forall|j: int| 0 <= j < image@.len() ==> (#[trigger] image@[j])@.len() == 3
                * dimensions.0 as int,
            samples_per_pixel == 1 ==> forall|j: int, x: int|
                0 <= j < y as int && 0 <= x < dimensions.0 as int ==> (image@[j]@[3 * x],
                image@[j]@[3 * x + 1], image@[j]@[3 * x + 2]) == #[trigger] render_pixel_spec(
                    scene.objects@,
                    scene.lights@,
                    scene.background,
                    *camera,
                    x as u32,
                    j as u32,
                    centre_jitters(),
                    max_depth as nat,
                ),
        decreases dimensions.1 - y,
    {
        let row: Vec<u8> = render_row(scene, camera, y, dimensions.0, samples_per_pixel, max_depth);
        image.push(row);
        y = y + 1;
    }
    image
}

} // verus!
