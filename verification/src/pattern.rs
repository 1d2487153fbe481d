//! Procedural colour patterns, each carrying its own transform that is
//! applied after the owning object's inverse transform.

use vstd::prelude::*;

use crate::colour::{cadd, cscale, csub, Colour};
use crate::fixed::{fadd, fdiv, ffloor, ffrac, fmul, fneg, fsqrt, fx_add, fx_floor, fx_frac,
    fx_mul, fx_sqrt, is_even};
use crate::matrix::{mat_mul, mat_transpose, mpoint, Matrix4};
use crate::transform::{rotation_mat, scaling_mat, translation_mat, Transform};
use crate::vec3::{Point3, Vec3};
use crate::Axis;

verus! {

#[derive(Clone, Copy, Debug, PartialEq, Eq, Structural)]
pub struct Stripes {
    pub a: Colour,
    pub b: Colour,
    pub transform: Transform,
}

#[derive(Clone, Copy, Debug, PartialEq, Eq, Structural)]
pub struct Gradient {
    pub a: Colour,
    pub b: Colour,
    pub transform: Transform,
}

#[derive(Clone, Copy, Debug, PartialEq, Eq, Structural)]
pub struct Rings {
    pub a: Colour,
    pub b: Colour,
    pub transform: Transform,
}

#[derive(Clone, Copy, Debug, PartialEq, Eq, Structural)]
pub struct Checkers {
    pub a: Colour,
    pub b: Colour,
    pub transform: Transform,
}

#[derive(Clone, Copy, Debug, PartialEq, Eq, Structural)]
pub enum Pattern {
    Stripes(Stripes),
    Gradient(Gradient),
    Rings(Rings),
    Checkers(Checkers),
}

/// Alternating colours by the parity of the floor of the x coordinate.
pub open spec fn stripes_colour(a: Colour, b: Colour, p: Vec3) -> Colour {
    if (ffloor(p.x) as int) % 2 == 0 {
        a
    } else {
        b
    }
}

/// Linear blend from `a` to `b` over the fractional part of x.
pub open spec fn gradient_colour(a: Colour, b: Colour, p: Vec3) -> Colour {
    cadd(a, cscale(csub(b, a), ffrac(p.x)))
}

/// Alternating colours by the parity of the radial distance in the x-z plane.
pub open spec fn rings_colour(a: Colour, b: Colour, p: Vec3) -> Colour {
    if (ffloor(fsqrt(fadd(fmul(p.x, p.x), fmul(p.z, p.z)))) as int) % 2 == 0 {
        a
    } else {
        b
    }
}

/// Alternating colours by the parity of the summed floored coordinates.
pub open spec fn checkers_colour(a: Colour, b: Colour, p: Vec3) -> Colour {
    if ((ffloor(p.x) + ffloor(p.y) + ffloor(p.z)) as int) % 2 == 0 {
        a
    } else {
        b
    }
}

pub open spec fn pattern_transform(pat: Pattern) -> Transform {
    match pat {
        Pattern::Stripes(s) => s.transform,
        Pattern::Gradient(g) => g.transform,
        Pattern::Rings(r) => r.transform,
        Pattern::Checkers(c) => c.transform,
    }
}

pub open spec fn pattern_colour_at_point(pat: Pattern, p: Vec3) -> Colour {
    match pat {
        Pattern::Stripes(s) => stripes_colour(s.a, s.b, p),
        Pattern::Gradient(g) => gradient_colour(g.a, g.b, p),
        Pattern::Rings(r) => rings_colour(r.a, r.b, p),
        Pattern::Checkers(c) => checkers_colour(c.a, c.b, p),
    }
}

/// The pattern colour at a world point: first into object space, then into
/// pattern space, then the pattern's own rule.
pub open spec fn pattern_colour_at(pat: Pattern, point: Vec3, obj_inverse: Matrix4) -> Colour {
    pattern_colour_at_point(pat, mpoint(pattern_transform(pat).inverse, mpoint(obj_inverse, point)))
}

/// The same pattern with its transform replaced.
pub open spec fn with_transform(pat: Pattern, t: Transform) -> Pattern {
    match pat {
        Pattern::Stripes(s) => Pattern::Stripes(Stripes { a: s.a, b: s.b, transform: t }),
        Pattern::Gradient(g) => Pattern::Gradient(Gradient { a: g.a, b: g.b, transform: t }),
        Pattern::Rings(r) => Pattern::Rings(Rings { a: r.a, b: r.b, transform: t }),
        Pattern::Checkers(c) => Pattern::Checkers(Checkers { a: c.a, b: c.b, transform: t }),
    }
}

impl Stripes {
    pub fn new(a: Colour, b: Colour) -> (s: Stripes)
        ensures
            s.a == a,
            s.b == b,
            s.transform == Transform::spec_identity(),
    {
        Stripes { a, b, transform: Transform::new() }
    }

    pub fn colour_at_pattern(&self, point: &Point3) -> (c: Colour)
        ensures
            c == stripes_colour(self.a, self.b, *point),
    {
        if is_even(fx_floor(point.x)) {
            self.a
        } else {
            self.b
        }
    }
}

impl Gradient {
    pub fn new(a: Colour, b: Colour) -> (s: Gradient)
        ensures
            s.a == a,
            s.b == b,
            s.transform == Transform::spec_identity(),
    {
        Gradient { a, b, transform: Transform::new() }
    }

    pub fn colour_at_pattern(&self, point: &Point3) -> (c: Colour)
        ensures
            c == gradient_colour(self.a, self.b, *point),
    {
        let distance: Colour = self.b.sub(&self.a);
        let fraction: i64 = fx_frac(point.x);
        self.a.add(&distance.mul_scalar(fraction))
    }
}

impl Rings {
    pub fn new(a: Colour, b: Colour) -> (s: Rings)
        ensures
            s.a == a,
            s.b == b,
            s.transform == Transform::spec_identity(),
    {
        Rings { a, b, transform: Transform::new() }
    }

    pub fn colour_at_pattern(&self, point: &Point3) -> (c: Colour)
        ensures
            c == rings_colour(self.a, self.b, *point),
    {
        let radial: i64 = fx_sqrt(fx_add(fx_mul(point.x, point.x), fx_mul(point.z, point.z)));
        if is_even(fx_floor(radial)) {
            self.a
        } else {
            self.b
        }
    }
}

impl Checkers {
    pub fn new(a: Colour, b: Colour) -> (s: Checkers)
        ensures
            s.a == a,
            s.b == b,
            s.transform == Transform::spec_identity(),
    {
        Checkers { a, b, transform: Transform::new() }
    }

    pub fn colour_at_pattern(&self, point: &Point3) -> (c: Colour)
        ensures
            c == checkers_colour(self.a, self.b, *point),
    {
        let fx: i64 = fx_floor(point.x);
        let fy: i64 = fx_floor(point.y);
        let fz: i64 = fx_floor(point.z);
        if is_even(fx + fy + fz) {
            self.a
        } else {
            self.b
        }
    }
}

impl Pattern {
    pub fn colour_at(&self, point: &Point3, obj_inverse: &Matrix4) -> (c: Colour)
        ensures
            c == pattern_colour_at(*self, *point, *obj_inverse),
    {
        let obj_point: Point3 = obj_inverse.transform_point(point);
        let inverse: Matrix4 = match self {
            Pattern::Stripes(s) => s.transform.inverse,
            Pattern::Gradient(g) => g.transform.inverse,
            Pattern::Rings(r) => r.transform.inverse,
            Pattern::Checkers(c) => c.transform.inverse,
        };
        let pattern_point: Point3 = inverse.transform_point(&obj_point);
        match self {
            Pattern::Stripes(s) => s.colour_at_pattern(&pattern_point),
            Pattern::Gradient(g) => g.colour_at_pattern(&pattern_point),
            Pattern::Rings(r) => r.colour_at_pattern(&pattern_point),
            Pattern::Checkers(c) => c.colour_at_pattern(&pattern_point),
        }
    }

    pub fn translate(&mut self, x: i64, y: i64, z: i64)
        ensures
            *final(self) == with_transform(
                *old(self),
                Transform {
                    matrix: mat_mul(pattern_transform(*old(self)).matrix, translation_mat(x, y, z)),
                    inverse: mat_mul(
                        translation_mat(fneg(x), fneg(y), fneg(z)),
                        pattern_transform(*old(self)).inverse,
                    ),
                },
            ),
    {
        match self {
            Pattern::Stripes(s) => s.transform.translate(x, y, z),
            Pattern::Gradient(g) => g.transform.translate(x, y, z),
            Pattern::Rings(r) => r.transform.translate(x, y, z),
            Pattern::Checkers(c) => c.transform.translate(x, y, z),
        }
    }

    pub fn scale(&mut self, x: i64, y: i64, z: i64)
        requires
            x != 0,
            y != 0,
            z != 0,
        ensures
            *final(self) == with_transform(
                *old(self),
                Transform {
                    matrix: mat_mul(pattern_transform(*old(self)).matrix, scaling_mat(x, y, z)),
                    inverse: mat_mul(
                        scaling_mat(
                            fdiv(crate::fixed::FX_ONE, x),
                            fdiv(crate::fixed::FX_ONE, y),
                            fdiv(crate::fixed::FX_ONE, z),
                        ),
                        pattern_transform(*old(self)).inverse,
                    ),
                },
            ),
    {
        match self {
            Pattern::Stripes(s) => s.transform.scale(x, y, z),
            Pattern::Gradient(g) => g.transform.scale(x, y, z),
            Pattern::Rings(r) => r.transform.scale(x, y, z),
            Pattern::Checkers(c) => c.transform.scale(x, y, z),
        }
    }

    pub fn scale_uniform(&mut self, s: i64)
        requires
            s != 0,
        ensures
            *final(self) == with_transform(
                *old(self),
                Transform {
                    matrix: mat_mul(pattern_transform(*old(self)).matrix, scaling_mat(s, s, s)),
                    inverse: mat_mul(
                        scaling_mat(
                            fdiv(crate::fixed::FX_ONE, s),
                            fdiv(crate::fixed::FX_ONE, s),
                            fdiv(crate::fixed::FX_ONE, s),
                        ),
                        pattern_transform(*old(self)).inverse,
                    ),
                },
            ),
    {
        self.scale(s, s, s);
    }

    pub fn rotate(&mut self, axis: Axis, angle: i64)
        ensures
            *final(self) == with_transform(
                *old(self),
                Transform {
                    matrix: mat_mul(pattern_transform(*old(self)).matrix, rotation_mat(axis, angle)),
                    inverse: mat_mul(
                        mat_transpose(rotation_mat(axis, angle)),
                        pattern_transform(*old(self)).inverse,
                    ),
                },
            ),
    {
        match self {
            Pattern::Stripes(s) => s.transform.rotate(axis, angle),
            Pattern::Gradient(g) => g.transform.rotate(axis, angle),
            Pattern::Rings(r) => r.transform.rotate(axis, angle),
            Pattern::Checkers(c) => c.transform.rotate(axis, angle),
        }
    }
}

} // verus!
