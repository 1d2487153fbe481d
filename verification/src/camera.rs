//! The camera: a view transform with its inverse, and the projection of
//! pixel coordinates onto world-space rays.

use vstd::prelude::*;

use crate::fixed::{fadd, fcos, fdiv, fmul, fneg, fsub, ftan, fx_add, fx_div, fx_mul, fx_neg,
    fx_sub, fx_tan, FX_ONE, SCALE};
use crate::matrix::{mat_mul, mat_transpose, mpoint, Matrix4};
use crate::ray::Ray;
use crate::transform::{rotation_mat, translation_mat, Transform};
use crate::vec3::{vcross, vnorm, vsub, Point3, Vec3};
use crate::Axis;

verus! {

/// One degree in fixed-point radians.
pub const RAD_PER_DEG: i64 = 174_533;

/// Two, in fixed-point form.
pub const FX_TWO: i64 = 20_000_000;

/// The rotational part of the look-at matrix: right, true-up and forward
/// vectors as rows.
pub open spec fn view_rotation(from: Point3, to: Point3, up: Vec3) -> Matrix4 {
    let f = vnorm(vsub(to, from));
    let s = vcross(f, vnorm(up));
    let u = vcross(s, f);
    Matrix4 {
        m00: s.x, m01: s.y, m02: s.z, m03: 0,
        m10: u.x, m11: u.y, m12: u.z, m13: 0,
        m20: fneg(f.x), m21: fneg(f.y), m22: fneg(f.z), m23: 0,
        m30: 0, m31: 0, m32: 0, m33: FX_ONE as i64,
    }
}

/// The full look-at matrix: rotate, after moving the eye to the origin.
pub open spec fn view_matrix_spec(from: Point3, to: Point3, up: Vec3) -> Matrix4 {
    mat_mul(
        view_rotation(from, to, up),
        translation_mat(fneg(from.x), fneg(from.y), fneg(from.z)),
    )
}

/// Determinant of the three-by-three block of an affine map.
pub open spec fn det3(m: Matrix4) -> i64 {
    fadd(
        fsub(
            fmul(m.m00, fsub(fmul(m.m11, m.m22), fmul(m.m12, m.m21))),
            fmul(m.m01, fsub(fmul(m.m10, m.m22), fmul(m.m12, m.m20))),
        ),
        fmul(m.m02, fsub(fmul(m.m10, m.m21), fmul(m.m11, m.m20))),
    )
}

/// Inverse of a rotation-like map (no translation), by the adjugate of its
/// three-by-three block over the determinant.
pub open spec fn affine3_inv(m: Matrix4) -> Matrix4 {
    let d = det3(m);
    Matrix4 {
        m00: fdiv(fsub(fmul(m.m11, m.m22), fmul(m.m12, m.m21)), d),
        m01: fdiv(fsub(fmul(m.m02, m.m21), fmul(m.m01, m.m22)), d),
        m02: fdiv(fsub(fmul(m.m01, m.m12), fmul(m.m02, m.m11)), d),
        m03: 0,
        m10: fdiv(fsub(fmul(m.m12, m.m20), fmul(m.m10, m.m22)), d),
        m11: fdiv(fsub(fmul(m.m00, m.m22), fmul(m.m02, m.m20)), d),
        m12: fdiv(fsub(fmul(m.m02, m.m10), fmul(m.m00, m.m12)), d),
        m13: 0,
        m20: fdiv(fsub(fmul(m.m10, m.m21), fmul(m.m11, m.m20)), d),
        m21: fdiv(fsub(fmul(m.m01, m.m20), fmul(m.m00, m.m21)), d),
        m22: fdiv(fsub(fmul(m.m00, m.m11), fmul(m.m01, m.m10)), d),
        m23: 0,
        m30: 0, m31: 0, m32: 0, m33: FX_ONE as i64,
    }
}

/// The inverse of the look-at matrix: move the eye back after undoing the
/// rotation.
pub open spec fn camera_inverse_spec(from: Point3, to: Point3, up: Vec3) -> Matrix4 {
    mat_mul(translation_mat(from.x, from.y, from.z), affine3_inv(view_rotation(from, to, up)))
}

/// Half the vertical field of view, in radians, as the tangent gives the
/// half-height of the viewport one unit in front of the eye.
pub open spec fn half_view_of(vert_fov_degrees: i64) -> i64 {
    ftan(fdiv(fmul(vert_fov_degrees, RAD_PER_DEG), FX_TWO))
}

/// The angle whose tangent the camera takes; its cosine must not vanish.
pub open spec fn half_fov_angle(vert_fov_degrees: i64) -> i64 {
    fdiv(fmul(vert_fov_degrees, RAD_PER_DEG), FX_TWO)
}

#[derive(Clone, Copy, Debug, PartialEq, Eq, Structural)]
pub struct Camera {
    pub transform: Transform,
    pub half_width: i64,
    pub half_height: i64,
    pub pixel_size: i64,
    pub lens_radius: i64,
}

/// The camera ray through pixel `(x, y)`, the sample jittered inside the
/// pixel by `(jx, jy)`.
pub open spec fn get_ray_spec(cam: Camera, x: u32, y: u32, jx: i64, jy: i64) -> Ray {
    let offset_x = fmul(fadd((x as i64 * SCALE as i64) as i64, jx), cam.pixel_size);
    let offset_y = fmul(fadd((y as i64 * SCALE as i64) as i64, jy), cam.pixel_size);
    let world_x = fsub(cam.half_width, offset_x);
    let world_y = fsub(cam.half_height, offset_y);
    let pixel = mpoint(
        cam.transform.inverse,
        Vec3 { x: world_x, y: world_y, z: fneg(FX_ONE) },
    );
    let origin = mpoint(cam.transform.inverse, Vec3 { x: 0, y: 0, z: 0 });
    Ray { origin, direction: vnorm(vsub(pixel, origin)) }
}

impl Camera {
    /// Set up the view transform and the viewport dimensions. The field of
    /// view is given in degrees; a right angle sees a viewport two units
    /// tall one unit ahead.
    #[verifier::rlimit(100)]
    pub fn new(
        look_from: Point3,
        look_at: Point3,
        view_up: Vec3,
        vert_fov: i64,
        dimensions: (u32, u32),
        aperture: i64,
    ) -> (c: Camera)
        requires
            dimensions.0 > 0,
            dimensions.1 > 0,
            fcos(half_fov_angle(vert_fov)) != 0,
            det3(view_rotation(look_from, look_at, view_up)) != 0,
        ensures
            c.transform.matrix == view_matrix_spec(look_from, look_at, view_up),
            c.transform.inverse == camera_inverse_spec(look_from, look_at, view_up),
            c.half_width == (if fdiv(
                (dimensions.0 as i64 * SCALE as i64) as i64,
                (dimensions.1 as i64 * SCALE as i64) as i64,
            ) >= FX_ONE {
                half_view_of(vert_fov)
            } else {
                fmul(
                    half_view_of(vert_fov),
                    fdiv(
                        (dimensions.0 as i64 * SCALE as i64) as i64,
                        (dimensions.1 as i64 * SCALE as i64) as i64,
                    ),
                )
            }),
            c.half_height == (if fdiv(
                (dimensions.0 as i64 * SCALE as i64) as i64,
                (dimensions.1 as i64 * SCALE as i64) as i64,
            ) >= FX_ONE {
                fdiv(
                    half_view_of(vert_fov),
                    fdiv(
                        (dimensions.0 as i64 * SCALE as i64) as i64,
                        (dimensions.1 as i64 * SCALE as i64) as i64,
                    ),
                )
            } else {
                half_view_of(vert_fov)
            }),
            c.pixel_size == fdiv(
                fadd(c.half_width, c.half_width),
                (dimensions.0 as i64 * SCALE as i64) as i64,
            ),
            c.lens_radius == fdiv(aperture, FX_TWO),
    {
        let r_mat: Matrix4 = Camera::view_rotation_exec(look_from, look_at, view_up);
        let transform: Matrix4 = r_mat.multiply(
            &Matrix4::new(
                FX_ONE, 0, 0, fx_neg(look_from.x),
                0, FX_ONE, 0, fx_neg(look_from.y),
                0, 0, FX_ONE, fx_neg(look_from.z),
                0, 0, 0, FX_ONE,
            ),
        );
        let inverse: Matrix4 = Matrix4::new(
            FX_ONE, 0, 0, look_from.x,
            0, FX_ONE, 0, look_from.y,
            0, 0, FX_ONE, look_from.z,
            0, 0, 0, FX_ONE,
        ).multiply(&Camera::affine3_inverse(&r_mat));

        // Cut the field of view in half, making a right-angle triangle.
        let half_view: i64 = fx_tan(fx_div(fx_mul(vert_fov, RAD_PER_DEG), FX_TWO));
        let w_fx: i64 = (dimensions.0 as i64) * SCALE;
        let h_fx: i64 = (dimensions.1 as i64) * SCALE;
        let aspect_ratio: i64 = fx_div(w_fx, h_fx);

        let half_width: i64;
        let half_height: i64;
        if aspect_ratio >= FX_ONE {
            half_width = half_view;
            half_height = fx_div(half_view, aspect_ratio);
        } else {
            half_width = fx_mul(half_view, aspect_ratio);
            half_height = half_view;
        }
        Camera {
            transform: Transform { matrix: transform, inverse },
            half_width,
            half_height,
            pixel_size: fx_div(fx_add(half_width, half_width), w_fx),
            lens_radius: fx_div(aperture, FX_TWO),
        }
    }

    fn view_rotation_exec(from: Point3, to: Point3, up: Vec3) -> (m: Matrix4)
        ensures
            m == view_rotation(from, to, up),
    {
        let f: Vec3 = to.sub(&from).normalise();
        let s: Vec3 = f.cross(&up.normalise());
        let u: Vec3 = s.cross(&f);
        Matrix4::new(
            s.x, s.y, s.z, 0,
            u.x, u.y, u.z, 0,
            fx_neg(f.x), fx_neg(f.y), fx_neg(f.z), 0,
            0, 0, 0, FX_ONE,
        )
    }

    fn affine3_inverse(m: &Matrix4) -> (inv: Matrix4)
        requires
            det3(*m) != 0,
        ensures
            inv == affine3_inv(*m),
    {
        let d: i64 = fx_add(
            fx_sub(
                fx_mul(m.m00, fx_sub(fx_mul(m.m11, m.m22), fx_mul(m.m12, m.m21))),
                fx_mul(m.m01, fx_sub(fx_mul(m.m10, m.m22), fx_mul(m.m12, m.m20))),
            ),
            fx_mul(m.m02, fx_sub(fx_mul(m.m10, m.m21), fx_mul(m.m11, m.m20))),
        );
        Matrix4::new(
            fx_div(fx_sub(fx_mul(m.m11, m.m22), fx_mul(m.m12, m.m21)), d),
            fx_div(fx_sub(fx_mul(m.m02, m.m21), fx_mul(m.m01, m.m22)), d),
            fx_div(fx_sub(fx_mul(m.m01, m.m12), fx_mul(m.m02, m.m11)), d),
            0,
            fx_div(fx_sub(fx_mul(m.m12, m.m20), fx_mul(m.m10, m.m22)), d),
            fx_div(fx_sub(fx_mul(m.m00, m.m22), fx_mul(m.m02, m.m20)), d),
            fx_div(fx_sub(fx_mul(m.m02, m.m10), fx_mul(m.m00, m.m12)), d),
            0,
            fx_div(fx_sub(fx_mul(m.m10, m.m21), fx_mul(m.m11, m.m20)), d),
            fx_div(fx_sub(fx_mul(m.m01, m.m20), fx_mul(m.m00, m.m21)), d),
            fx_div(fx_sub(fx_mul(m.m00, m.m11), fx_mul(m.m01, m.m10)), d),
            0,
            0, 0, 0, FX_ONE,
        )
    }

    /// The look-at matrix alone.
    pub fn view_matrix(from: Point3, to: Point3, up: Vec3) -> (m: Matrix4)
        ensures
            m == view_matrix_spec(from, to, up),
    {
        let r_mat: Matrix4 = Camera::view_rotation_exec(from, to, up);
        r_mat.multiply(
            &Matrix4::new(
                FX_ONE, 0, 0, fx_neg(from.x),
                0, FX_ONE, 0, fx_neg(from.y),
                0, 0, FX_ONE, fx_neg(from.z),
                0, 0, 0, FX_ONE,
            ),
        )
    }

    /// The camera ray for a pixel, with the sample jittered inside the
    /// pixel by `(jx, jy)` (half of one for the pixel centre).
    pub fn get_ray(&self, x: u32, y: u32, jx: i64, jy: i64) -> (r: Ray)
        ensures
            r == get_ray_spec(*self, x, y, jx, jy),
    {
        let offset_x: i64 = fx_mul(fx_add((x as i64) * SCALE, jx), self.pixel_size);
        let offset_y: i64 = fx_mul(fx_add((y as i64) * SCALE, jy), self.pixel_size);

        let world_x: i64 = fx_sub(self.half_width, offset_x);
        let world_y: i64 = fx_sub(self.half_height, offset_y);

        let pixel: Point3 = self.transform.inverse.transform_point(
            &Vec3::new(world_x, world_y, fx_neg(FX_ONE)),
        );
        let origin: Point3 = self.transform.inverse.transform_point(&Vec3::new(0, 0, 0));
        let direction: Vec3 = pixel.sub(&origin).normalise();

        Ray::new(origin, direction)
    }

    pub fn translate(&mut self, x: i64, y: i64, z: i64)
        ensures
            final(self).transform.matrix == mat_mul(
                old(self).transform.matrix,
                translation_mat(x, y, z),
            ),
            final(self).transform.inverse == mat_mul(
                translation_mat(fneg(x), fneg(y), fneg(z)),
                old(self).transform.inverse,
            ),
            final(self).half_width == old(self).half_width,
            final(self).half_height == old(self).half_height,
            final(self).pixel_size == old(self).pixel_size,
            final(self).lens_radius == old(self).lens_radius,
    {
        self.transform.translate(x, y, z);
    }

    pub fn rotate(&mut self, axis: Axis, angle: i64)
        ensures
            final(self).transform.matrix == mat_mul(
                old(self).transform.matrix,
                rotation_mat(axis, angle),
            ),
            final(self).transform.inverse == mat_mul(
                mat_transpose(rotation_mat(axis, angle)),
                old(self).transform.inverse,
            ),
            final(self).half_width == old(self).half_width,
            final(self).half_height == old(self).half_height,
            final(self).pixel_size == old(self).pixel_size,
            final(self).lens_radius == old(self).lens_radius,
    {
        self.transform.rotate(axis, angle);
    }
}

} // verus!
