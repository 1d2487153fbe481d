//! Rays: an origin and a direction.

use vstd::prelude::*;

use crate::matrix::{mpoint, mvec, Matrix4};
use crate::vec3::{vadd, vscale, vsub, Point3, Vec3};

verus! {

#[derive(Clone, Copy, Debug, PartialEq, Eq, Structural)]
pub struct Ray {
    pub origin: Point3,
    pub direction: Vec3,
}

/// The point a parameter `t` along the ray.
pub open spec fn ray_at(r: Ray, t: i64) -> Point3 {
    vadd(r.origin, vscale(r.direction, t))
}

/// The ray carried through an affine map.
pub open spec fn ray_transform(r: Ray, m: Matrix4) -> Ray {
    Ray { origin: mpoint(m, r.origin), direction: mvec(m, r.direction) }
}

impl Ray {
    pub fn new(origin: Point3, direction: Vec3) -> (r: Ray)
        ensures
            r == (Ray { origin, direction }),
    {
        Ray { origin, direction }
    }

    pub fn at(&self, t: i64) -> (p: Point3)
        ensures
            p == ray_at(*self, t),
    {
        self.origin.add(&self.direction.mul_scalar(t))
    }

    pub fn direction_to_point(&self, point: Point3) -> (d: Vec3)
        ensures
            d == vsub(point, self.origin),
    {
        point.sub(&self.origin)
    }

    pub fn transform(&self, transform: &Matrix4) -> (r: Ray)
        ensures
            r == ray_transform(*self, *transform),
    {
        Ray {
            origin: transform.transform_point(&self.origin),
            direction: transform.transform_vector(&self.direction),
        }
    }
}

} // verus!
