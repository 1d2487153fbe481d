//! Affine placement of primitives: a matrix kept together with its inverse.
//!
//! Every operation right-multiplies the matrix by an elementary map and
//! left-multiplies the inverse by the elementary map's own inverse, so the
//! pair stays consistent without ever inverting a full matrix.

use vstd::prelude::*;

use crate::fixed::{fadd, fcos, fdiv, fmul, fneg, fsin, fsub, fx_cos, fx_div, fx_mul, fx_neg,
    fx_sin, fx_sub, FX_ONE};
use crate::matrix::{mat_identity, mat_mul, mat_transpose, mpoint, Matrix4};
use crate::vec3::{vadd, Vec3};
use crate::Axis;

verus! {

/// A transform and its inverse, maintained together.
#[derive(Clone, Copy, Debug, PartialEq, Eq, Structural)]
pub struct Transform {
    pub matrix: Matrix4,
    pub inverse: Matrix4,
}

pub open spec fn translation_mat(x: i64, y: i64, z: i64) -> Matrix4 {
    Matrix4 {
        m00: FX_ONE, m01: 0, m02: 0, m03: x,
        m10: 0, m11: FX_ONE, m12: 0, m13: y,
        m20: 0, m21: 0, m22: FX_ONE, m23: z,
        m30: 0, m31: 0, m32: 0, m33: FX_ONE,
    }
}

pub open spec fn scaling_mat(x: i64, y: i64, z: i64) -> Matrix4 {
    Matrix4 {
        m00: x, m01: 0, m02: 0, m03: 0,
        m10: 0, m11: y, m12: 0, m13: 0,
        m20: 0, m21: 0, m22: z, m23: 0,
        m30: 0, m31: 0, m32: 0, m33: FX_ONE,
    }
}

pub open spec fn rotation_mat(axis: Axis, angle: i64) -> Matrix4 {
    let c = fcos(angle);
    let s = fsin(angle);
    match axis {
        Axis::X => Matrix4 {
            m00: FX_ONE, m01: 0, m02: 0, m03: 0,
            m10: 0, m11: c, m12: fneg(s), m13: 0,
            m20: 0, m21: s, m22: c, m23: 0,
            m30: 0, m31: 0, m32: 0, m33: FX_ONE,
        },
        Axis::Y => Matrix4 {
            m00: c, m01: 0, m02: s, m03: 0,
            m10: 0, m11: FX_ONE, m12: 0, m13: 0,
            m20: fneg(s), m21: 0, m22: c, m23: 0,
            m30: 0, m31: 0, m32: 0, m33: FX_ONE,
        },
        Axis::Z => Matrix4 {
            m00: c, m01: fneg(s), m02: 0, m03: 0,
            m10: s, m11: c, m12: 0, m13: 0,
            m20: 0, m21: 0, m22: FX_ONE, m23: 0,
            m30: 0, m31: 0, m32: 0, m33: FX_ONE,
        },
    }
}

pub open spec fn shear_mat(xy: i64, xz: i64, yx: i64, yz: i64, zx: i64, zy: i64) -> Matrix4 {
    Matrix4 {
        m00: FX_ONE, m01: xy, m02: xz, m03: 0,
        m10: yx, m11: FX_ONE, m12: yz, m13: 0,
        m20: zx, m21: zy, m22: FX_ONE, m23: 0,
        m30: 0, m31: 0, m32: 0, m33: FX_ONE,
    }
}

/// Determinant of the three-by-three block of a shear map.
pub open spec fn shear_det(xy: i64, xz: i64, yx: i64, yz: i64, zx: i64, zy: i64) -> i64 {
    fsub(
        fsub(
            fsub(FX_ONE, fmul(yz, zy)),
            fmul(xy, fsub(yx, fmul(yz, zx))),
        ),
        fmul(xz, fsub(fmul(yx, zy), zx)),
    )
}

/// Inverse of a shear map, by the adjugate over the determinant.
pub open spec fn shear_inv_mat(xy: i64, xz: i64, yx: i64, yz: i64, zx: i64, zy: i64) -> Matrix4 {
    let d = shear_det(xy, xz, yx, yz, zx, zy);
    Matrix4 {
        m00: fdiv(fsub(FX_ONE, fmul(yz, zy)), d),
        m01: fdiv(fsub(fmul(xz, zy), xy), d),
        m02: fdiv(fsub(fmul(xy, yz), xz), d),
        m03: 0,
        m10: fdiv(fsub(fmul(yz, zx), yx), d),
        m11: fdiv(fsub(FX_ONE, fmul(xz, zx)), d),
        m12: fdiv(fsub(fmul(xz, yx), yz), d),
        m13: 0,
        m20: fdiv(fsub(fmul(yx, zy), zx), d),
        m21: fdiv(fsub(fmul(xy, zx), zy), d),
        m22: fdiv(fsub(FX_ONE, fmul(xy, yx)), d),
        m23: 0,
        m30: 0, m31: 0, m32: 0, m33: FX_ONE,
    }
}

impl Transform {
    /// The identity placement.
    pub open spec fn spec_identity() -> Transform {
        Transform { matrix: mat_identity(), inverse: mat_identity() }
    }

    pub fn new() -> (t: Transform)
        ensures
            t == Transform::spec_identity(),
    {
        Transform { matrix: Matrix4::identity(), inverse: Matrix4::identity() }
    }

    pub fn translate(&mut self, x: i64, y: i64, z: i64)
        ensures
            final(self).matrix == mat_mul(old(self).matrix, translation_mat(x, y, z)),
            final(self).inverse == mat_mul(
                translation_mat(fneg(x), fneg(y), fneg(z)),
                old(self).inverse,
            ),
    {
        let m: Matrix4 = Matrix4::new(
            FX_ONE, 0, 0, x,
            0, FX_ONE, 0, y,
            0, 0, FX_ONE, z,
            0, 0, 0, FX_ONE,
        );
        let inv: Matrix4 = Matrix4::new(
            FX_ONE, 0, 0, fx_neg(x),
            0, FX_ONE, 0, fx_neg(y),
            0, 0, FX_ONE, fx_neg(z),
            0, 0, 0, FX_ONE,
        );
        self.matrix = self.matrix.multiply(&m);
        self.inverse = inv.multiply(&self.inverse);
    }

    /// Scale each axis; a zero factor would make the map non-invertible, so
    /// such a construction is rejected before it starts.
    pub fn scale(&mut self, x: i64, y: i64, z: i64)
        requires
            x != 0,
            y != 0,
            z != 0,
        ensures
            final(self).matrix == mat_mul(old(self).matrix, scaling_mat(x, y, z)),
            final(self).inverse == mat_mul(
                scaling_mat(fdiv(FX_ONE, x), fdiv(FX_ONE, y), fdiv(FX_ONE, z)),
                old(self).inverse,
            ),
    {
        let m: Matrix4 = Matrix4::new(
            x, 0, 0, 0,
            0, y, 0, 0,
            0, 0, z, 0,
            0, 0, 0, FX_ONE,
        );
        let inv: Matrix4 = Matrix4::new(
            fx_div(FX_ONE, x), 0, 0, 0,
            0, fx_div(FX_ONE, y), 0, 0,
            0, 0, fx_div(FX_ONE, z), 0,
            0, 0, 0, FX_ONE,
        );
        self.matrix = self.matrix.multiply(&m);
        self.inverse = inv.multiply(&self.inverse);
    }

    pub fn scale_uniform(&mut self, s: i64)
        requires
            s != 0,
        ensures
            final(self).matrix == mat_mul(old(self).matrix, scaling_mat(s, s, s)),
            final(self).inverse == mat_mul(
                scaling_mat(fdiv(FX_ONE, s), fdiv(FX_ONE, s), fdiv(FX_ONE, s)),
                old(self).inverse,
            ),
    {
        self.scale(s, s, s);
    }

    /// Rotate about an axis by an angle in radians; the inverse of a rotation
    /// is its transpose.
    pub fn rotate(&mut self, axis: Axis, angle: i64)
        ensures
            final(self).matrix == mat_mul(old(self).matrix, rotation_mat(axis, angle)),
            final(self).inverse == mat_mul(
                mat_transpose(rotation_mat(axis, angle)),
                old(self).inverse,
            ),
    {
        let c: i64 = fx_cos(angle);
        let s: i64 = fx_sin(angle);
        let m: Matrix4 = match axis {
            Axis::X => Matrix4::new(
                FX_ONE, 0, 0, 0,
                0, c, fx_neg(s), 0,
                0, s, c, 0,
                0, 0, 0, FX_ONE,
            ),
            Axis::Y => Matrix4::new(
                c, 0, s, 0,
                0, FX_ONE, 0, 0,
                fx_neg(s), 0, c, 0,
                0, 0, 0, FX_ONE,
            ),
            Axis::Z => Matrix4::new(
                c, fx_neg(s), 0, 0,
                s, c, 0, 0,
                0, 0, FX_ONE, 0,
                0, 0, 0, FX_ONE,
            ),
        };
        let inv: Matrix4 = m.transpose();
        proof {
            assert(m == rotation_mat(axis, angle));
        }
        self.matrix = self.matrix.multiply(&m);
        self.inverse = inv.multiply(&self.inverse);
    }

    /// Shear each axis toward the others; rejected when the map would be
    /// non-invertible.
    pub fn shear(&mut self, xy: i64, xz: i64, yx: i64, yz: i64, zx: i64, zy: i64)
        requires
            shear_det(xy, xz, yx, yz, zx, zy) != 0,
        ensures
            final(self).matrix == mat_mul(old(self).matrix, shear_mat(xy, xz, yx, yz, zx, zy)),
            final(self).inverse == mat_mul(
                shear_inv_mat(xy, xz, yx, yz, zx, zy),
                old(self).inverse,
            ),
    {
        let m: Matrix4 = Matrix4::new(
            FX_ONE, xy, xz, 0,
            yx, FX_ONE, yz, 0,
            zx, zy, FX_ONE, 0,
            0, 0, 0, FX_ONE,
        );
        let d: i64 = fx_sub(
            fx_sub(
                fx_sub(FX_ONE, fx_mul(yz, zy)),
                fx_mul(xy, fx_sub(yx, fx_mul(yz, zx))),
            ),
            fx_mul(xz, fx_sub(fx_mul(yx, zy), zx)),
        );
        let inv: Matrix4 = Matrix4::new(
            fx_div(fx_sub(FX_ONE, fx_mul(yz, zy)), d),
            fx_div(fx_sub(fx_mul(xz, zy), xy), d),
            fx_div(fx_sub(fx_mul(xy, yz), xz), d),
            0,
            fx_div(fx_sub(fx_mul(yz, zx), yx), d),
            fx_div(fx_sub(FX_ONE, fx_mul(xz, zx)), d),
            fx_div(fx_sub(fx_mul(xz, yx), yz), d),
            0,
            fx_div(fx_sub(fx_mul(yx, zy), zx), d),
            fx_div(fx_sub(fx_mul(xy, zx), zy), d),
            fx_div(fx_sub(FX_ONE, fx_mul(xy, yx)), d),
            0,
            0, 0, 0, FX_ONE,
        );
        self.matrix = self.matrix.multiply(&m);
        self.inverse = inv.multiply(&self.inverse);
    }
}


/// Multiplying by the identity changes nothing: fixed-point products by one
/// and zero are exact.
pub proof fn lemma_mat_identity_left(m: Matrix4)
    ensures
        mat_mul(mat_identity(), m) == m,
{
    crate::fixed::lemma_fmul_unit_auto();
}

pub proof fn lemma_mat_identity_right(m: Matrix4)
    ensures
        mat_mul(m, mat_identity()) == m,
{
    crate::fixed::lemma_fmul_unit_auto();
}

/// Composing two translations translates by the sum of the offsets, exactly.
pub proof fn lemma_translation_compose(x1: i64, y1: i64, z1: i64, x2: i64, y2: i64, z2: i64)
    ensures
        mat_mul(translation_mat(x1, y1, z1), translation_mat(x2, y2, z2)) == translation_mat(
            fadd(x2, x1),
            fadd(y2, y1),
            fadd(z2, z1),
        ),
{
    crate::fixed::lemma_fmul_unit_auto();
}

/// A translation moves a point by exactly its offsets.
pub proof fn lemma_translation_point(x: i64, y: i64, z: i64, p: Vec3)
    ensures
        mpoint(translation_mat(x, y, z), p) == vadd(p, Vec3 { x, y, z }),
{
    crate::fixed::lemma_fmul_unit_auto();
}

/// Appending a translation to a transform that is a translation pair leaves
/// another translation pair, while no offset sum overflows.
pub proof fn lemma_translate_preserves_translation(
    x1: i64,
    y1: i64,
    z1: i64,
    x2: i64,
    y2: i64,
    z2: i64,
)
    requires
        i64::MIN < x1 + x2 <= i64::MAX,
        i64::MIN < y1 + y2 <= i64::MAX,
        i64::MIN < z1 + z2 <= i64::MAX,
        x1 != i64::MIN && y1 != i64::MIN && z1 != i64::MIN,
        x2 != i64::MIN && y2 != i64::MIN && z2 != i64::MIN,
    ensures
        mat_mul(translation_mat(x1, y1, z1), translation_mat(x2, y2, z2)) == translation_mat(
            fadd(x1, x2),
            fadd(y1, y2),
            fadd(z1, z2),
        ),
        mat_mul(
            translation_mat(fneg(x2), fneg(y2), fneg(z2)),
            translation_mat(fneg(x1), fneg(y1), fneg(z1)),
        ) == translation_mat(fneg(fadd(x1, x2)), fneg(fadd(y1, y2)), fneg(fadd(z1, z2))),
{
    lemma_translation_compose(x1, y1, z1, x2, y2, z2);
    lemma_translation_compose(fneg(x2), fneg(y2), fneg(z2), fneg(x1), fneg(y1), fneg(z1));
}

/// Transforming a point by a transform that translates by some offset and
/// then by its inverse returns the original point exactly, as long as the
/// intermediate point does not leave the representable range. This is the
/// round-trip law for every transform composed of translations; scales and
/// rotations divide, and round their inverses, so for them the round trip
/// holds only within a tolerance.
pub proof fn lemma_translation_round_trip(t: Transform, p: Vec3, x: i64, y: i64, z: i64)
    requires
        is_translation_pair(t, x, y, z),
        x != i64::MIN && y != i64::MIN && z != i64::MIN,
        i64::MIN <= p.x + x <= i64::MAX,
        i64::MIN <= p.y + y <= i64::MAX,
        i64::MIN <= p.z + z <= i64::MAX,
    ensures
        mpoint(t.inverse, mpoint(t.matrix, p)) == p,
{
    lemma_translation_point(x, y, z, p);
    lemma_translation_point(fneg(x), fneg(y), fneg(z), vadd(p, Vec3 { x, y, z }));
}


/// A transform that translates by `(x, y, z)` while its kept inverse
/// translates back.
pub open spec fn is_translation_pair(t: Transform, x: i64, y: i64, z: i64) -> bool {
    t.matrix == translation_mat(x, y, z) && t.inverse == translation_mat(
        fneg(x),
        fneg(y),
        fneg(z),
    )
}

/// A fresh transform is the translation pair by nothing: the identity is
/// the translation by zero offsets.
pub proof fn lemma_new_is_translation_pair()
    ensures
        is_translation_pair(Transform::spec_identity(), 0, 0, 0),
{
}

/// Appending a translation to a translation pair leaves a translation pair
/// by the summed offsets, while no sum overflows. Together with the round
/// trip below, every transform built from a sequence of translations sends
/// each point out and back to exactly where it started.
pub proof fn lemma_translate_on_translation_pair(
    t: Transform,
    x1: i64,
    y1: i64,
    z1: i64,
    x2: i64,
    y2: i64,
    z2: i64,
)
    requires
        is_translation_pair(t, x1, y1, z1),
        i64::MIN < x1 + x2 <= i64::MAX,
        i64::MIN < y1 + y2 <= i64::MAX,
        i64::MIN < z1 + z2 <= i64::MAX,
        x1 != i64::MIN && y1 != i64::MIN && z1 != i64::MIN,
        x2 != i64::MIN && y2 != i64::MIN && z2 != i64::MIN,
    ensures
        is_translation_pair(
            Transform {
                matrix: mat_mul(t.matrix, translation_mat(x2, y2, z2)),
                inverse: mat_mul(translation_mat(fneg(x2), fneg(y2), fneg(z2)), t.inverse),
            },
            fadd(x1, x2),
            fadd(y1, y2),
            fadd(z1, z2),
        ),
{
    lemma_translate_preserves_translation(x1, y1, z1, x2, y2, z2);
}

} // verus!


