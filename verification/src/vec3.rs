//! Three-component vectors and points over fixed-point scalars.

use vstd::prelude::*;

use crate::fixed::{
    fabs, fadd, fdiv, fmul, fneg, fsqrt, fsub, fx_abs, fx_add, fx_div, fx_mul, fx_neg, fx_sqrt,
    fx_sub, FX_ONE,
};

verus! {

/// A vector (or point) in space; each component is a fixed-point scalar.
#[derive(Clone, Copy, Debug, PartialEq, Eq, Structural)]
pub struct Vec3 {
    pub x: i64,
    pub y: i64,
    pub z: i64,
}

/// Points share the vector representation; the transform routines treat them
/// as having a fourth, implicit coordinate of one.
pub type Point3 = Vec3;

/// Vectors whose components are all closer to zero than this count as zero.
pub const NEAR_ZERO_EPS: i64 = 1;

pub open spec fn vadd(a: Vec3, b: Vec3) -> Vec3 {
    Vec3 { x: fadd(a.x, b.x), y: fadd(a.y, b.y), z: fadd(a.z, b.z) }
}

pub open spec fn vsub(a: Vec3, b: Vec3) -> Vec3 {
    Vec3 { x: fsub(a.x, b.x), y: fsub(a.y, b.y), z: fsub(a.z, b.z) }
}

pub open spec fn vneg(a: Vec3) -> Vec3 {
    Vec3 { x: fneg(a.x), y: fneg(a.y), z: fneg(a.z) }
}

/// Component-wise product.
pub open spec fn vmul(a: Vec3, b: Vec3) -> Vec3 {
    Vec3 { x: fmul(a.x, b.x), y: fmul(a.y, b.y), z: fmul(a.z, b.z) }
}

/// Component-wise quotient.
pub open spec fn vdiv(a: Vec3, b: Vec3) -> Vec3 {
    Vec3 { x: fdiv(a.x, b.x), y: fdiv(a.y, b.y), z: fdiv(a.z, b.z) }
}

pub open spec fn vscale(a: Vec3, k: i64) -> Vec3 {
    Vec3 { x: fmul(a.x, k), y: fmul(a.y, k), z: fmul(a.z, k) }
}

pub open spec fn vdiv_scalar(a: Vec3, k: i64) -> Vec3 {
    Vec3 { x: fdiv(a.x, k), y: fdiv(a.y, k), z: fdiv(a.z, k) }
}

pub open spec fn vdot(a: Vec3, b: Vec3) -> i64 {
    fadd(fadd(fmul(a.x, b.x), fmul(a.y, b.y)), fmul(a.z, b.z))
}

pub open spec fn vcross(a: Vec3, b: Vec3) -> Vec3 {
    Vec3 {
        x: fsub(fmul(a.y, b.z), fmul(a.z, b.y)),
        y: fsub(fmul(a.z, b.x), fmul(a.x, b.z)),
        z: fsub(fmul(a.x, b.y), fmul(a.y, b.x)),
    }
}

pub open spec fn vlen_sq(a: Vec3) -> i64 {
    vdot(a, a)
}

pub open spec fn vlen(a: Vec3) -> i64 {
    fsqrt(vlen_sq(a))
}

/// The vector scaled to unit length; the zero vector stays put.
pub open spec fn vnorm(a: Vec3) -> Vec3 {
    if vlen(a) == 0 {
        a
    } else {
        vdiv_scalar(a, vlen(a))
    }
}

pub open spec fn vnear_zero(a: Vec3) -> bool {
    fabs(a.x) < NEAR_ZERO_EPS && fabs(a.y) < NEAR_ZERO_EPS && fabs(a.z) < NEAR_ZERO_EPS
}

/// The incident vector mirrored about the surface normal:
/// `i - 2 (i . n) n`.
pub open spec fn vreflect(incident: Vec3, normal: Vec3) -> Vec3 {
    vsub(incident, vscale(normal, fadd(vdot(incident, normal), vdot(incident, normal))))
}

/// Snell refraction of a unit incident vector about a unit normal with the
/// given ratio of refractive indices.
pub open spec fn vrefract(incident: Vec3, normal: Vec3, ratio: i64) -> Vec3 {
    let cos_theta = vdot(vneg(incident), normal);
    let cos_theta_c = if cos_theta > FX_ONE {
        FX_ONE as i64
    } else {
        cos_theta
    };
    let r_perp = vscale(vadd(incident, vscale(normal, cos_theta_c)), ratio);
    let r_par = vscale(normal, fneg(fsqrt(fabs(fsub(FX_ONE, vlen_sq(r_perp))))));
    vadd(r_perp, r_par)
}

impl Vec3 {
    pub fn new(x: i64, y: i64, z: i64) -> (r: Vec3)
        ensures
            r == (Vec3 { x, y, z }),
    {
        Vec3 { x, y, z }
    }

    pub fn add(&self, other: &Vec3) -> (r: Vec3)
        ensures
            r == vadd(*self, *other),
    {
        Vec3 {
            x: fx_add(self.x, other.x),
            y: fx_add(self.y, other.y),
            z: fx_add(self.z, other.z),
        }
    }

    pub fn sub(&self, other: &Vec3) -> (r: Vec3)
        ensures
            r == vsub(*self, *other),
    {
        Vec3 {
            x: fx_sub(self.x, other.x),
            y: fx_sub(self.y, other.y),
            z: fx_sub(self.z, other.z),
        }
    }

    pub fn neg(&self) -> (r: Vec3)
        ensures
            r == vneg(*self),
    {
        Vec3 { x: fx_neg(self.x), y: fx_neg(self.y), z: fx_neg(self.z) }
    }

    pub fn mul(&self, other: &Vec3) -> (r: Vec3)
        ensures
            r == vmul(*self, *other),
    {
        Vec3 {
            x: fx_mul(self.x, other.x),
            y: fx_mul(self.y, other.y),
            z: fx_mul(self.z, other.z),
        }
    }

    pub fn div(&self, other: &Vec3) -> (r: Vec3)
        requires
            other.x != 0,
            other.y != 0,
            other.z != 0,
        ensures
            r == vdiv(*self, *other),
    {
        Vec3 {
            x: fx_div(self.x, other.x),
            y: fx_div(self.y, other.y),
            z: fx_div(self.z, other.z),
        }
    }

    pub fn mul_scalar(&self, k: i64) -> (r: Vec3)
        ensures
            r == vscale(*self, k),
    {
        Vec3 { x: fx_mul(self.x, k), y: fx_mul(self.y, k), z: fx_mul(self.z, k) }
    }

    pub fn div_scalar(&self, k: i64) -> (r: Vec3)
        requires
            k != 0,
        ensures
            r == vdiv_scalar(*self, k),
    {
        Vec3 { x: fx_div(self.x, k), y: fx_div(self.y, k), z: fx_div(self.z, k) }
    }

    pub fn dot(&self, other: &Vec3) -> (r: i64)
        ensures
            r == vdot(*self, *other),
    {
        fx_add(
            fx_add(fx_mul(self.x, other.x), fx_mul(self.y, other.y)),
            fx_mul(self.z, other.z),
        )
    }

    pub fn cross(&self, other: &Vec3) -> (r: Vec3)
        ensures
            r == vcross(*self, *other),
    {
        Vec3 {
            x: fx_sub(fx_mul(self.y, other.z), fx_mul(self.z, other.y)),
            y: fx_sub(fx_mul(self.z, other.x), fx_mul(self.x, other.z)),
            z: fx_sub(fx_mul(self.x, other.y), fx_mul(self.y, other.x)),
        }
    }

    pub fn squared_length(&self) -> (r: i64)
        ensures
            r == vlen_sq(*self),
    {
        self.dot(self)
    }

    pub fn length(&self) -> (r: i64)
        ensures
            r == vlen(*self),
            r >= 0,
    {
        fx_sqrt(self.squared_length())
    }

    pub fn normalise(&self) -> (r: Vec3)
        ensures
            r == vnorm(*self),
    {
        let len: i64 = self.length();
        if len == 0 {
            *self
        } else {
            self.div_scalar(len)
        }
    }

    pub fn near_zero(&self) -> (r: bool)
        ensures
            r == vnear_zero(*self),
    {
        fx_abs(self.x) < NEAR_ZERO_EPS && fx_abs(self.y) < NEAR_ZERO_EPS && fx_abs(self.z)
            < NEAR_ZERO_EPS
    }

    pub fn origin() -> (r: Vec3)
        ensures
            r == (Vec3 { x: 0i64, y: 0i64, z: 0i64 }),
    {
        Vec3 { x: 0, y: 0, z: 0 }
    }
}

/// The incident vector mirrored about the surface normal.
pub fn reflect(incident: &Vec3, normal: &Vec3) -> (r: Vec3)
    ensures
        r == vreflect(*incident, *normal),
{
    let d: i64 = incident.dot(normal);
    incident.sub(&normal.mul_scalar(fx_add(d, d)))
}

/// Use Snell's law to calculate the refracted ray.
pub fn refract(incident: &Vec3, normal: &Vec3, ratio: i64) -> (r: Vec3)
    ensures
        r == vrefract(*incident, *normal, ratio),
{
    let mut cos_theta: i64 = incident.neg().dot(normal);
    if cos_theta > FX_ONE {
        cos_theta = FX_ONE;
    }
    let r_perp: Vec3 = incident.add(&normal.mul_scalar(cos_theta)).mul_scalar(ratio);
    let r_par: Vec3 = normal.mul_scalar(
        fx_neg(fx_sqrt(fx_abs(fx_sub(FX_ONE, r_perp.squared_length())))),
    );
    r_perp.add(&r_par)
}

} // verus!
