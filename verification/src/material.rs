//! Materials: the Phong coefficients, the optional pattern, and the local
//! lighting model.

use vstd::prelude::*;

use crate::colour::{black, cadd, cmul, cscale, Colour};
use crate::fixed::{ffloor, fmul, fpow, fx_mul, fx_pow, fx_floor, FX_ONE, SCALE};
use crate::intersection::Intersection;
use crate::light::Light;
use crate::matrix::Matrix4;
use crate::pattern::{pattern_colour_at, Pattern};
use crate::vec3::{reflect, vdot, vneg, vnorm, vreflect, vsub, Point3};

verus! {

#[derive(Clone, Copy, Debug, PartialEq, Eq, Structural)]
pub struct Material {
    pub colour: Colour,
    pub pattern: Option<Pattern>,
    /// Ambient reflection: background light, applied equally everywhere.
    pub ambient: i64,
    /// Diffuse reflection from a matte surface.
    pub diffuse: i64,
    /// Reflection of the light source itself: specular highlights.
    pub specular: i64,
    /// The higher the shininess, the tighter the specular highlights.
    pub shininess: i64,
    /// The amount of light reflected from the surface.
    pub reflect: i64,
    /// The amount of light refracted through the surface.
    pub transparency: i64,
    /// The index of refraction of the surface's medium.
    pub refractive_index: i64,
}

/// The whole-number exponent used for the specular highlight, clipped to the
/// range an exponent can take.
pub open spec fn shininess_exp(s: i64) -> u32 {
    let f = ffloor(s);
    if f < 0 {
        0u32
    } else if f > u32::MAX {
        u32::MAX
    } else {
        f as u32
    }
}

/// The Phong lighting model at a hit: ambient always; diffuse and specular
/// only when the point is lit and faces the light.
pub open spec fn lighting(m: Material, light: Light, hit: Intersection, in_shadow: bool) -> Colour {
    let effective = cmul(hit.colour, light.intensity);
    let ambient = cscale(effective, m.ambient);
    if in_shadow {
        ambient
    } else {
        let light_direction = vnorm(vsub(light.position, hit.point));
        let light_dot_normal = vdot(light_direction, hit.normal);
        if light_dot_normal < 0 {
            ambient
        } else {
            let diffuse = cscale(cscale(effective, m.diffuse), light_dot_normal);
            let reflect_direction = vreflect(vneg(light_direction), hit.normal);
            let reflect_dot_eye = vdot(reflect_direction, hit.eye);
            let specular = if reflect_dot_eye <= 0 {
                black()
            } else {
                cscale(
                    cscale(light.intensity, m.specular),
                    fpow(reflect_dot_eye, shininess_exp(m.shininess) as nat),
                )
            };
            cadd(cadd(ambient, diffuse), specular)
        }
    }
}

/// The surface colour at a point: the pattern's colour when one is set, the
/// flat colour otherwise.
pub open spec fn material_colour_at(m: Material, point: Point3, inverse: Matrix4) -> Colour {
    match m.pattern {
        Some(pattern) => pattern_colour_at(pattern, point, inverse),
        None => m.colour,
    }
}

impl Material {
    #[allow(clippy::too_many_arguments)]
    pub fn new(
        colour: Colour,
        pattern: Option<Pattern>,
        ambient: i64,
        diffuse: i64,
        specular: i64,
        shininess: i64,
        reflect: i64,
        transparency: i64,
        refractive_index: i64,
    ) -> (m: Material)
        ensures
            m == (Material {
                colour,
                pattern,
                ambient,
                diffuse,
                specular,
                shininess,
                reflect,
                transparency,
                refractive_index,
            }),
    {
        Material {
            colour,
            pattern,
            ambient,
            diffuse,
            specular,
            shininess,
            reflect,
            transparency,
            refractive_index,
        }
    }

    /// Clear glass: fully transparent, nothing else.
    pub fn glass() -> (m: Material)
        ensures
            m.transparency == FX_ONE,
            m.refractive_index == 15_200_000i64,
            m.pattern is None,
            m.ambient == 0 && m.diffuse == 0 && m.specular == 0 && m.reflect == 0,
    {
        Material {
            colour: Colour::white(),
            pattern: None,
            ambient: 0,
            diffuse: 0,
            specular: 0,
            shininess: 0,
            reflect: 0,
            transparency: FX_ONE,
            refractive_index: 15_200_000,
        }
    }

    /// A fully reflective, highlighted surface.
    pub fn metal(colour: Colour, pattern: Option<Pattern>) -> (m: Material)
        ensures
            m.colour == colour,
            m.pattern == pattern,
            m.ambient == 0 && m.diffuse == 0,
            m.specular == FX_ONE,
            m.shininess == 2_000_000_000i64,
            m.reflect == FX_ONE,
            m.transparency == 0,
            m.refractive_index == FX_ONE,
    {
        Material {
            colour,
            pattern,
            ambient: 0,
            diffuse: 0,
            specular: FX_ONE,
            shininess: 200 * SCALE,
            reflect: FX_ONE,
            transparency: 0,
            refractive_index: FX_ONE,
        }
    }

    /// A matte surface with mild highlights.
    pub fn plastic(colour: Colour, pattern: Option<Pattern>) -> (m: Material)
        ensures
            m.colour == colour,
            m.pattern == pattern,
            m.ambient == 0,
            m.diffuse == 5_000_000i64 && m.specular == 5_000_000i64,
            m.shininess == 1_000_000_000i64,
            m.reflect == 0 && m.transparency == 0,
            m.refractive_index == FX_ONE,
    {
        Material {
            colour,
            pattern,
            ambient: 0,
            diffuse: 5_000_000,
            specular: 5_000_000,
            shininess: 100 * SCALE,
            reflect: 0,
            transparency: 0,
            refractive_index: FX_ONE,
        }
    }

    /// The Phong lighting model at a hit.
    pub fn light(&self, light: &Light, hit: &Intersection, in_shadow: bool) -> (c: Colour)
        ensures
            c == lighting(*self, *light, *hit, in_shadow),
    {
        let effective: Colour = hit.colour.mul(&light.intensity);
        let ambient: Colour = effective.mul_scalar(self.ambient);

        if in_shadow {
            return ambient;
        }
        let light_direction = light.position.sub(&hit.point).normalise();
        let light_dot_normal: i64 = light_direction.dot(&hit.normal);
        if light_dot_normal < 0 {
            // Light is on the other side of the surface.
            return ambient;
        }
        let diffuse: Colour = effective.mul_scalar(self.diffuse).mul_scalar(light_dot_normal);

        let reflect_direction = reflect(&light_direction.neg(), &hit.normal);
        let reflect_dot_eye: i64 = reflect_direction.dot(&hit.eye);
        let specular: Colour = if reflect_dot_eye <= 0 {
            Colour::black()
        } else {
            let exponent: i64 = fx_floor(self.shininess);
            let exponent32: u32 = if exponent < 0 {
                0
            } else if exponent > u32::MAX as i64 {
                u32::MAX
            } else {
                exponent as u32
            };
            let factor: i64 = fx_pow(reflect_dot_eye, exponent32);
            light.intensity.mul_scalar(self.specular).mul_scalar(factor)
        };
        ambient.add(&diffuse).add(&specular)
    }

    /// The surface colour at a point, in the owning object's space.
    pub fn colour_at(&self, point: &Point3, inverse: &Matrix4) -> (c: Colour)
        ensures
            c == material_colour_at(*self, *point, *inverse),
    {
        match &self.pattern {
            Some(pattern) => pattern.colour_at(point, inverse),
            None => self.colour,
        }
    }
}

impl Default for Material {
    /// A plain white matte surface.
    fn default() -> (m: Material)
        ensures
            m == (Material {
                colour: Colour { r: SCALE as i64, g: SCALE as i64, b: SCALE as i64 },
                pattern: None,
                ambient: 1_000_000i64,
                diffuse: 9_000_000i64,
                specular: 9_000_000i64,
                shininess: 2_000_000_000i64,
                reflect: 0i64,
                transparency: 0i64,
                refractive_index: FX_ONE as i64,
            }),
    {
        Material {
            colour: Colour::white(),
            pattern: None,
            ambient: 1_000_000,
            diffuse: 9_000_000,
            specular: 9_000_000,
            shininess: 200 * SCALE,
            reflect: 0,
            transparency: 0,
            refractive_index: FX_ONE,
        }
    }
}

} // verus!
