//! Colours over fixed-point channels.

use vstd::prelude::*;

use crate::fixed::{
    fadd, fclamp, fdiv, fmul, fsqrt, fsub, fx_add, fx_clamp, fx_div, fx_mul, fx_sqrt, fx_sub,
    SCALE,
};

verus! {

/// An RGB colour; each channel is a fixed-point scalar where one is full
/// intensity.
#[derive(Clone, Copy, Debug, PartialEq, Eq, Structural)]
pub struct Colour {
    pub r: i64,
    pub g: i64,
    pub b: i64,
}

/// The largest channel value that survives the clamp before 8-bit conversion.
pub const CHANNEL_CLAMP_MAX: i64 = 9_990_000;

pub open spec fn cadd(a: Colour, b: Colour) -> Colour {
    Colour { r: fadd(a.r, b.r), g: fadd(a.g, b.g), b: fadd(a.b, b.b) }
}

pub open spec fn csub(a: Colour, b: Colour) -> Colour {
    Colour { r: fsub(a.r, b.r), g: fsub(a.g, b.g), b: fsub(a.b, b.b) }
}

/// Component-wise product.
pub open spec fn cmul(a: Colour, b: Colour) -> Colour {
    Colour { r: fmul(a.r, b.r), g: fmul(a.g, b.g), b: fmul(a.b, b.b) }
}

pub open spec fn cscale(a: Colour, k: i64) -> Colour {
    Colour { r: fmul(a.r, k), g: fmul(a.g, k), b: fmul(a.b, k) }
}

pub open spec fn black() -> Colour {
    Colour { r: 0, g: 0, b: 0 }
}

/// One channel after averaging over the sample count and gamma correction.
pub open spec fn gamma_channel(c: i64, samples_fx: i64) -> i64 {
    fsqrt(fdiv(c, samples_fx))
}

pub open spec fn cgamma(a: Colour, samples_fx: i64) -> Colour {
    Colour {
        r: gamma_channel(a.r, samples_fx),
        g: gamma_channel(a.g, samples_fx),
        b: gamma_channel(a.b, samples_fx),
    }
}

/// A channel clamped to `[0, CHANNEL_CLAMP_MAX]` and mapped onto `0..=255`.
pub open spec fn channel_byte(c: i64) -> u8 {
    ((256 * fclamp(c, 0, CHANNEL_CLAMP_MAX)) / (SCALE as int)) as u8
}

impl Colour {
    pub fn new(r: i64, g: i64, b: i64) -> (c: Colour)
        ensures
            c == (Colour { r, g, b }),
    {
        Colour { r, g, b }
    }

    pub fn black() -> (c: Colour)
        ensures
            c == black(),
    {
        Colour { r: 0, g: 0, b: 0 }
    }

    pub fn white() -> (c: Colour)
        ensures
            c == (Colour { r: SCALE as i64, g: SCALE as i64, b: SCALE as i64 }),
    {
        Colour { r: SCALE, g: SCALE, b: SCALE }
    }

    pub fn add(&self, other: &Colour) -> (c: Colour)
        ensures
            c == cadd(*self, *other),
    {
        Colour {
            r: fx_add(self.r, other.r),
            g: fx_add(self.g, other.g),
            b: fx_add(self.b, other.b),
        }
    }

    pub fn sub(&self, other: &Colour) -> (c: Colour)
        ensures
            c == csub(*self, *other),
    {
        Colour {
            r: fx_sub(self.r, other.r),
            g: fx_sub(self.g, other.g),
            b: fx_sub(self.b, other.b),
        }
    }

    pub fn mul(&self, other: &Colour) -> (c: Colour)
        ensures
            c == cmul(*self, *other),
    {
        Colour {
            r: fx_mul(self.r, other.r),
            g: fx_mul(self.g, other.g),
            b: fx_mul(self.b, other.b),
        }
    }

    pub fn mul_scalar(&self, k: i64) -> (c: Colour)
        ensures
            c == cscale(*self, k),
    {
        Colour { r: fx_mul(self.r, k), g: fx_mul(self.g, k), b: fx_mul(self.b, k) }
    }

    /// Average the accumulated colour over the sample count and apply the
    /// square-root gamma curve.
    pub fn gamma_correct(&mut self, samples: u32)
        requires
            samples > 0,
        ensures
            *final(self) == cgamma(*old(self), ((samples as int) * (SCALE as int)) as i64),
    {
        let samples_fx: i64 = (samples as i64) * SCALE;
        self.r = fx_sqrt(fx_div(self.r, samples_fx));
        self.g = fx_sqrt(fx_div(self.g, samples_fx));
        self.b = fx_sqrt(fx_div(self.b, samples_fx));
    }

    /// The colour as three bytes, each channel clamped and scaled.
    pub fn to_rgb8(&self) -> (bytes: (u8, u8, u8))
        ensures
            bytes.0 == channel_byte(self.r),
            bytes.1 == channel_byte(self.g),
            bytes.2 == channel_byte(self.b),
    {
        (byte_of(self.r), byte_of(self.g), byte_of(self.b))
    }
}

fn byte_of(c: i64) -> (b: u8)
    ensures
        b == channel_byte(c),
{
    let clamped: i64 = fx_clamp(c, 0, CHANNEL_CLAMP_MAX);
    ((256u64 * (clamped as u64)) / (SCALE as u64)) as u8
}

} // verus!
