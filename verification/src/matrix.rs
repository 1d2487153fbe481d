//! Four-by-four matrices over fixed-point scalars, in the column-vector
//! convention: a point transforms as the matrix times `(x, y, z, 1)`.

use vstd::prelude::*;

use crate::fixed::{fadd, fdiv, fmul, fneg, fsub, fx_add, fx_div, fx_mul, fx_neg, fx_sub, FX_ONE};
use crate::vec3::Vec3;

verus! {

#[derive(Clone, Copy, Debug, PartialEq, Eq, Structural)]
pub struct Matrix4 {
    pub m00: i64,
    pub m01: i64,
    pub m02: i64,
    pub m03: i64,
    pub m10: i64,
    pub m11: i64,
    pub m12: i64,
    pub m13: i64,
    pub m20: i64,
    pub m21: i64,
    pub m22: i64,
    pub m23: i64,
    pub m30: i64,
    pub m31: i64,
    pub m32: i64,
    pub m33: i64,
}

pub open spec fn mat_identity() -> Matrix4 {
    Matrix4 {
        m00: FX_ONE, m01: 0, m02: 0, m03: 0,
        m10: 0, m11: FX_ONE, m12: 0, m13: 0,
        m20: 0, m21: 0, m22: FX_ONE, m23: 0,
        m30: 0, m31: 0, m32: 0, m33: FX_ONE,
    }
}

pub open spec fn mat_mul(a: Matrix4, b: Matrix4) -> Matrix4 {
    Matrix4 {
        m00: fadd(fadd(fadd(fmul(a.m00, b.m00), fmul(a.m01, b.m10)), fmul(a.m02, b.m20)), fmul(a.m03, b.m30)),
        m01: fadd(fadd(fadd(fmul(a.m00, b.m01), fmul(a.m01, b.m11)), fmul(a.m02, b.m21)), fmul(a.m03, b.m31)),
        m02: fadd(fadd(fadd(fmul(a.m00, b.m02), fmul(a.m01, b.m12)), fmul(a.m02, b.m22)), fmul(a.m03, b.m32)),
        m03: fadd(fadd(fadd(fmul(a.m00, b.m03), fmul(a.m01, b.m13)), fmul(a.m02, b.m23)), fmul(a.m03, b.m33)),
        m10: fadd(fadd(fadd(fmul(a.m10, b.m00), fmul(a.m11, b.m10)), fmul(a.m12, b.m20)), fmul(a.m13, b.m30)),
        m11: fadd(fadd(fadd(fmul(a.m10, b.m01), fmul(a.m11, b.m11)), fmul(a.m12, b.m21)), fmul(a.m13, b.m31)),
        m12: fadd(fadd(fadd(fmul(a.m10, b.m02), fmul(a.m11, b.m12)), fmul(a.m12, b.m22)), fmul(a.m13, b.m32)),
        m13: fadd(fadd(fadd(fmul(a.m10, b.m03), fmul(a.m11, b.m13)), fmul(a.m12, b.m23)), fmul(a.m13, b.m33)),
        m20: fadd(fadd(fadd(fmul(a.m20, b.m00), fmul(a.m21, b.m10)), fmul(a.m22, b.m20)), fmul(a.m23, b.m30)),
        m21: fadd(fadd(fadd(fmul(a.m20, b.m01), fmul(a.m21, b.m11)), fmul(a.m22, b.m21)), fmul(a.m23, b.m31)),
        m22: fadd(fadd(fadd(fmul(a.m20, b.m02), fmul(a.m21, b.m12)), fmul(a.m22, b.m22)), fmul(a.m23, b.m32)),
        m23: fadd(fadd(fadd(fmul(a.m20, b.m03), fmul(a.m21, b.m13)), fmul(a.m22, b.m23)), fmul(a.m23, b.m33)),
        m30: fadd(fadd(fadd(fmul(a.m30, b.m00), fmul(a.m31, b.m10)), fmul(a.m32, b.m20)), fmul(a.m33, b.m30)),
        m31: fadd(fadd(fadd(fmul(a.m30, b.m01), fmul(a.m31, b.m11)), fmul(a.m32, b.m21)), fmul(a.m33, b.m31)),
        m32: fadd(fadd(fadd(fmul(a.m30, b.m02), fmul(a.m31, b.m12)), fmul(a.m32, b.m22)), fmul(a.m33, b.m32)),
        m33: fadd(fadd(fadd(fmul(a.m30, b.m03), fmul(a.m31, b.m13)), fmul(a.m32, b.m23)), fmul(a.m33, b.m33)),
    }
}

pub open spec fn mat_transpose(a: Matrix4) -> Matrix4 {
    Matrix4 {
        m00: a.m00,
        m01: a.m10,
        m02: a.m20,
        m03: a.m30,
        m10: a.m01,
        m11: a.m11,
        m12: a.m21,
        m13: a.m31,
        m20: a.m02,
        m21: a.m12,
        m22: a.m22,
        m23: a.m32,
        m30: a.m03,
        m31: a.m13,
        m32: a.m23,
        m33: a.m33,
    }
}

pub open spec fn mat_add(a: Matrix4, b: Matrix4) -> Matrix4 {
    Matrix4 {
        m00: fadd(a.m00, b.m00),
        m01: fadd(a.m01, b.m01),
        m02: fadd(a.m02, b.m02),
        m03: fadd(a.m03, b.m03),
        m10: fadd(a.m10, b.m10),
        m11: fadd(a.m11, b.m11),
        m12: fadd(a.m12, b.m12),
        m13: fadd(a.m13, b.m13),
        m20: fadd(a.m20, b.m20),
        m21: fadd(a.m21, b.m21),
        m22: fadd(a.m22, b.m22),
        m23: fadd(a.m23, b.m23),
        m30: fadd(a.m30, b.m30),
        m31: fadd(a.m31, b.m31),
        m32: fadd(a.m32, b.m32),
        m33: fadd(a.m33, b.m33),
    }
}

pub open spec fn mat_sub(a: Matrix4, b: Matrix4) -> Matrix4 {
    Matrix4 {
        m00: fsub(a.m00, b.m00),
        m01: fsub(a.m01, b.m01),
        m02: fsub(a.m02, b.m02),
        m03: fsub(a.m03, b.m03),
        m10: fsub(a.m10, b.m10),
        m11: fsub(a.m11, b.m11),
        m12: fsub(a.m12, b.m12),
        m13: fsub(a.m13, b.m13),
        m20: fsub(a.m20, b.m20),
        m21: fsub(a.m21, b.m21),
        m22: fsub(a.m22, b.m22),
        m23: fsub(a.m23, b.m23),
        m30: fsub(a.m30, b.m30),
        m31: fsub(a.m31, b.m31),
        m32: fsub(a.m32, b.m32),
        m33: fsub(a.m33, b.m33),
    }
}

pub open spec fn mat_neg(a: Matrix4) -> Matrix4 {
    Matrix4 {
        m00: fneg(a.m00),
        m01: fneg(a.m01),
        m02: fneg(a.m02),
        m03: fneg(a.m03),
        m10: fneg(a.m10),
        m11: fneg(a.m11),
        m12: fneg(a.m12),
        m13: fneg(a.m13),
        m20: fneg(a.m20),
        m21: fneg(a.m21),
        m22: fneg(a.m22),
        m23: fneg(a.m23),
        m30: fneg(a.m30),
        m31: fneg(a.m31),
        m32: fneg(a.m32),
        m33: fneg(a.m33),
    }
}

pub open spec fn mat_scale(a: Matrix4, k: i64) -> Matrix4 {
    Matrix4 {
        m00: fmul(a.m00, k),
        m01: fmul(a.m01, k),
        m02: fmul(a.m02, k),
        m03: fmul(a.m03, k),
        m10: fmul(a.m10, k),
        m11: fmul(a.m11, k),
        m12: fmul(a.m12, k),
        m13: fmul(a.m13, k),
        m20: fmul(a.m20, k),
        m21: fmul(a.m21, k),
        m22: fmul(a.m22, k),
        m23: fmul(a.m23, k),
        m30: fmul(a.m30, k),
        m31: fmul(a.m31, k),
        m32: fmul(a.m32, k),
        m33: fmul(a.m33, k),
    }
}

/// A point transformed by the matrix: the product with `(x, y, z, 1)`,
/// divided through by the fourth coordinate when it is neither one nor zero.
pub open spec fn mpoint(m: Matrix4, p: Vec3) -> Vec3 {
    let x = fadd(fadd(fadd(fmul(m.m00, p.x), fmul(m.m01, p.y)), fmul(m.m02, p.z)), m.m03);
    let y = fadd(fadd(fadd(fmul(m.m10, p.x), fmul(m.m11, p.y)), fmul(m.m12, p.z)), m.m13);
    let z = fadd(fadd(fadd(fmul(m.m20, p.x), fmul(m.m21, p.y)), fmul(m.m22, p.z)), m.m23);
    let w = fadd(fadd(fadd(fmul(m.m30, p.x), fmul(m.m31, p.y)), fmul(m.m32, p.z)), m.m33);
    if w != FX_ONE && w != 0 {
        Vec3 { x: fdiv(x, w), y: fdiv(y, w), z: fdiv(z, w) }
    } else {
        Vec3 { x, y, z }
    }
}

/// A direction transformed by the matrix: translation does not apply.
pub open spec fn mvec(m: Matrix4, p: Vec3) -> Vec3 {
    Vec3 {
        x: fadd(fadd(fmul(m.m00, p.x), fmul(m.m01, p.y)), fmul(m.m02, p.z)),
        y: fadd(fadd(fmul(m.m10, p.x), fmul(m.m11, p.y)), fmul(m.m12, p.z)),
        z: fadd(fadd(fmul(m.m20, p.x), fmul(m.m21, p.y)), fmul(m.m22, p.z)),
    }
}

impl Matrix4 {
    /// Entries given row by row.
    #[allow(clippy::too_many_arguments)]
    pub fn new(m00: i64, m01: i64, m02: i64, m03: i64, m10: i64, m11: i64, m12: i64, m13: i64, m20: i64, m21: i64, m22: i64, m23: i64, m30: i64, m31: i64, m32: i64, m33: i64) -> (r: Matrix4)
        ensures
            r.m00 == m00,
            r.m01 == m01,
            r.m02 == m02,
            r.m03 == m03,
            r.m10 == m10,
            r.m11 == m11,
            r.m12 == m12,
            r.m13 == m13,
            r.m20 == m20,
            r.m21 == m21,
            r.m22 == m22,
            r.m23 == m23,
            r.m30 == m30,
            r.m31 == m31,
            r.m32 == m32,
            r.m33 == m33,
    {
        Matrix4 {
            m00,
            m01,
            m02,
            m03,
            m10,
            m11,
            m12,
            m13,
            m20,
            m21,
            m22,
            m23,
            m30,
            m31,
            m32,
            m33,
        }
    }

    pub fn identity() -> (r: Matrix4)
        ensures
            r == mat_identity(),
    {
        Matrix4 {
            m00: FX_ONE, m01: 0, m02: 0, m03: 0,
            m10: 0, m11: FX_ONE, m12: 0, m13: 0,
            m20: 0, m21: 0, m22: FX_ONE, m23: 0,
            m30: 0, m31: 0, m32: 0, m33: FX_ONE,
        }
    }

    pub fn multiply(&self, other: &Matrix4) -> (r: Matrix4)
        ensures
            r == mat_mul(*self, *other),
    {
        Matrix4 {
            m00: fx_add(fx_add(fx_add(fx_mul(self.m00, other.m00), fx_mul(self.m01, other.m10)), fx_mul(self.m02, other.m20)), fx_mul(self.m03, other.m30)),
            m01: fx_add(fx_add(fx_add(fx_mul(self.m00, other.m01), fx_mul(self.m01, other.m11)), fx_mul(self.m02, other.m21)), fx_mul(self.m03, other.m31)),
            m02: fx_add(fx_add(fx_add(fx_mul(self.m00, other.m02), fx_mul(self.m01, other.m12)), fx_mul(self.m02, other.m22)), fx_mul(self.m03, other.m32)),
            m03: fx_add(fx_add(fx_add(fx_mul(self.m00, other.m03), fx_mul(self.m01, other.m13)), fx_mul(self.m02, other.m23)), fx_mul(self.m03, other.m33)),
            m10: fx_add(fx_add(fx_add(fx_mul(self.m10, other.m00), fx_mul(self.m11, other.m10)), fx_mul(self.m12, other.m20)), fx_mul(self.m13, other.m30)),
            m11: fx_add(fx_add(fx_add(fx_mul(self.m10, other.m01), fx_mul(self.m11, other.m11)), fx_mul(self.m12, other.m21)), fx_mul(self.m13, other.m31)),
            m12: fx_add(fx_add(fx_add(fx_mul(self.m10, other.m02), fx_mul(self.m11, other.m12)), fx_mul(self.m12, other.m22)), fx_mul(self.m13, other.m32)),
            m13: fx_add(fx_add(fx_add(fx_mul(self.m10, other.m03), fx_mul(self.m11, other.m13)), fx_mul(self.m12, other.m23)), fx_mul(self.m13, other.m33)),
            m20: fx_add(fx_add(fx_add(fx_mul(self.m20, other.m00), fx_mul(self.m21, other.m10)), fx_mul(self.m22, other.m20)), fx_mul(self.m23, other.m30)),
            m21: fx_add(fx_add(fx_add(fx_mul(self.m20, other.m01), fx_mul(self.m21, other.m11)), fx_mul(self.m22, other.m21)), fx_mul(self.m23, other.m31)),
            m22: fx_add(fx_add(fx_add(fx_mul(self.m20, other.m02), fx_mul(self.m21, other.m12)), fx_mul(self.m22, other.m22)), fx_mul(self.m23, other.m32)),
            m23: fx_add(fx_add(fx_add(fx_mul(self.m20, other.m03), fx_mul(self.m21, other.m13)), fx_mul(self.m22, other.m23)), fx_mul(self.m23, other.m33)),
            m30: fx_add(fx_add(fx_add(fx_mul(self.m30, other.m00), fx_mul(self.m31, other.m10)), fx_mul(self.m32, other.m20)), fx_mul(self.m33, other.m30)),
            m31: fx_add(fx_add(fx_add(fx_mul(self.m30, other.m01), fx_mul(self.m31, other.m11)), fx_mul(self.m32, other.m21)), fx_mul(self.m33, other.m31)),
            m32: fx_add(fx_add(fx_add(fx_mul(self.m30, other.m02), fx_mul(self.m31, other.m12)), fx_mul(self.m32, other.m22)), fx_mul(self.m33, other.m32)),
            m33: fx_add(fx_add(fx_add(fx_mul(self.m30, other.m03), fx_mul(self.m31, other.m13)), fx_mul(self.m32, other.m23)), fx_mul(self.m33, other.m33)),
        }
    }

    pub fn transpose(&self) -> (r: Matrix4)
        ensures
            r == mat_transpose(*self),
    {
        Matrix4 {
            m00: self.m00,
            m01: self.m10,
            m02: self.m20,
            m03: self.m30,
            m10: self.m01,
            m11: self.m11,
            m12: self.m21,
            m13: self.m31,
            m20: self.m02,
            m21: self.m12,
            m22: self.m22,
            m23: self.m32,
            m30: self.m03,
            m31: self.m13,
            m32: self.m23,
            m33: self.m33,
        }
    }

    pub fn add(&self, other: &Matrix4) -> (r: Matrix4)
        ensures
            r == mat_add(*self, *other),
    {
        Matrix4 {
            m00: fx_add(self.m00, other.m00),
            m01: fx_add(self.m01, other.m01),
            m02: fx_add(self.m02, other.m02),
            m03: fx_add(self.m03, other.m03),
            m10: fx_add(self.m10, other.m10),
            m11: fx_add(self.m11, other.m11),
            m12: fx_add(self.m12, other.m12),
            m13: fx_add(self.m13, other.m13),
            m20: fx_add(self.m20, other.m20),
            m21: fx_add(self.m21, other.m21),
            m22: fx_add(self.m22, other.m22),
            m23: fx_add(self.m23, other.m23),
            m30: fx_add(self.m30, other.m30),
            m31: fx_add(self.m31, other.m31),
            m32: fx_add(self.m32, other.m32),
            m33: fx_add(self.m33, other.m33),
        }
    }

    pub fn sub(&self, other: &Matrix4) -> (r: Matrix4)
        ensures
            r == mat_sub(*self, *other),
    {
        Matrix4 {
            m00: fx_sub(self.m00, other.m00),
            m01: fx_sub(self.m01, other.m01),
            m02: fx_sub(self.m02, other.m02),
            m03: fx_sub(self.m03, other.m03),
            m10: fx_sub(self.m10, other.m10),
            m11: fx_sub(self.m11, other.m11),
            m12: fx_sub(self.m12, other.m12),
            m13: fx_sub(self.m13, other.m13),
            m20: fx_sub(self.m20, other.m20),
            m21: fx_sub(self.m21, other.m21),
            m22: fx_sub(self.m22, other.m22),
            m23: fx_sub(self.m23, other.m23),
            m30: fx_sub(self.m30, other.m30),
            m31: fx_sub(self.m31, other.m31),
            m32: fx_sub(self.m32, other.m32),
            m33: fx_sub(self.m33, other.m33),
        }
    }

    pub fn neg(&self) -> (r: Matrix4)
        ensures
            r == mat_neg(*self),
    {
        Matrix4 {
            m00: fx_neg(self.m00),
            m01: fx_neg(self.m01),
            m02: fx_neg(self.m02),
            m03: fx_neg(self.m03),
            m10: fx_neg(self.m10),
            m11: fx_neg(self.m11),
            m12: fx_neg(self.m12),
            m13: fx_neg(self.m13),
            m20: fx_neg(self.m20),
            m21: fx_neg(self.m21),
            m22: fx_neg(self.m22),
            m23: fx_neg(self.m23),
            m30: fx_neg(self.m30),
            m31: fx_neg(self.m31),
            m32: fx_neg(self.m32),
            m33: fx_neg(self.m33),
        }
    }

    pub fn multiply_scaler(&self, k: i64) -> (r: Matrix4)
        ensures
            r == mat_scale(*self, k),
    {
        Matrix4 {
            m00: fx_mul(self.m00, k),
            m01: fx_mul(self.m01, k),
            m02: fx_mul(self.m02, k),
            m03: fx_mul(self.m03, k),
            m10: fx_mul(self.m10, k),
            m11: fx_mul(self.m11, k),
            m12: fx_mul(self.m12, k),
            m13: fx_mul(self.m13, k),
            m20: fx_mul(self.m20, k),
            m21: fx_mul(self.m21, k),
            m22: fx_mul(self.m22, k),
            m23: fx_mul(self.m23, k),
            m30: fx_mul(self.m30, k),
            m31: fx_mul(self.m31, k),
            m32: fx_mul(self.m32, k),
            m33: fx_mul(self.m33, k),
        }
    }

    pub fn transform_point(&self, p: &Vec3) -> (r: Vec3)
        ensures
            r == mpoint(*self, *p),
    {
        let x: i64 = fx_add(fx_add(fx_add(fx_mul(self.m00, p.x), fx_mul(self.m01, p.y)), fx_mul(self.m02, p.z)), self.m03);
        let y: i64 = fx_add(fx_add(fx_add(fx_mul(self.m10, p.x), fx_mul(self.m11, p.y)), fx_mul(self.m12, p.z)), self.m13);
        let z: i64 = fx_add(fx_add(fx_add(fx_mul(self.m20, p.x), fx_mul(self.m21, p.y)), fx_mul(self.m22, p.z)), self.m23);
        let w: i64 = fx_add(fx_add(fx_add(fx_mul(self.m30, p.x), fx_mul(self.m31, p.y)), fx_mul(self.m32, p.z)), self.m33);
        if w != FX_ONE && w != 0 {
            Vec3 { x: fx_div(x, w), y: fx_div(y, w), z: fx_div(z, w) }
        } else {
            Vec3 { x, y, z }
        }
    }

    pub fn transform_vector(&self, p: &Vec3) -> (r: Vec3)
        ensures
            r == mvec(*self, *p),
    {
        Vec3 {
            x: fx_add(fx_add(fx_mul(self.m00, p.x), fx_mul(self.m01, p.y)), fx_mul(self.m02, p.z)),
            y: fx_add(fx_add(fx_mul(self.m10, p.x), fx_mul(self.m11, p.y)), fx_mul(self.m12, p.z)),
            z: fx_add(fx_add(fx_mul(self.m20, p.x), fx_mul(self.m21, p.y)), fx_mul(self.m22, p.z)),
        }
    }
}

} // verus!
