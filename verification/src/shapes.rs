//! Object-space geometry of the six primitives: each solves its canonical
//! implicit equation and reports the ray parameters of the hits, unsorted.

use vstd::prelude::*;

use crate::fixed::{fabs, fadd, fdiv, fmul, fneg, fsqrt, fsub, fx_abs, fx_add, fx_div, fx_mul,
    fx_neg, fx_sqrt, fx_sub, FX_ONE};
use crate::ray::{ray_at, Ray};
use crate::vec3::{vlen, vnorm, Point3, Vec3};

verus! {

/// A ray this close to parallel with a plane misses it.
pub const EPS_PARALLEL: i64 = 10;

/// Direction components smaller than this are treated as zero in the slab
/// test, standing in for a division that would blow up.
pub const EPS_DIV: i64 = 1_000;

/// Points this close to a cap's height count as lying on the cap.
pub const EPS_CAP: i64 = 100;

/// The unit sphere about the origin.
#[derive(Clone, Copy, Debug, PartialEq, Eq, Structural)]
pub struct Sphere {
}

/// The infinite plane through the origin with normal +Y.
#[derive(Clone, Copy, Debug, PartialEq, Eq, Structural)]
pub struct Plane {
}

/// The unit-radius disk in that plane.
#[derive(Clone, Copy, Debug, PartialEq, Eq, Structural)]
pub struct Disk {
}

/// The axis-aligned cube spanning minus one to one on each axis.
#[derive(Clone, Copy, Debug, PartialEq, Eq, Structural)]
pub struct AxisAlignedBoundingBox {
}

/// The unit cylinder about the y axis, cut to `[min, max]` and optionally
/// capped.
#[derive(Clone, Copy, Debug, PartialEq, Eq, Structural)]
pub struct Cylinder {
    pub min: i64,
    pub max: i64,
    pub capped: bool,
}

/// The double cone `x^2 - y^2 + z^2 = 0`, cut to `[min, max]` and optionally
/// capped.
#[derive(Clone, Copy, Debug, PartialEq, Eq, Structural)]
pub struct Cone {
    pub min: i64,
    pub max: i64,
    pub capped: bool,
}

// ------------------------------------------------------------------ sphere

/// Roots of the unit-sphere quadratic that lie strictly inside the window.
pub open spec fn sphere_roots(r: Ray, t_min: i64, t_max: i64) -> Seq<i64> {
    let a = fadd(fadd(fmul(r.direction.x, r.direction.x), fmul(r.direction.y, r.direction.y)),
        fmul(r.direction.z, r.direction.z));
    if a == 0 {
        Seq::<i64>::empty()
    } else {
        let half_b = fadd(fadd(fmul(r.origin.x, r.direction.x), fmul(r.origin.y, r.direction.y)),
            fmul(r.origin.z, r.direction.z));
        let c = fsub(fadd(fadd(fmul(r.origin.x, r.origin.x), fmul(r.origin.y, r.origin.y)),
            fmul(r.origin.z, r.origin.z)), FX_ONE);
        let disc = fsub(fmul(half_b, half_b), fmul(a, c));
        if disc < 0 {
            Seq::<i64>::empty()
        } else {
            let sq = fsqrt(disc);
            let r1 = fdiv(fsub(fneg(half_b), sq), a);
            let r2 = fdiv(fadd(fneg(half_b), sq), a);
            let close = if r1 > r2 { r2 } else { r1 };
            let far = if r1 > r2 { r1 } else { r2 };
            let s0 = Seq::<i64>::empty();
            let s1 = if close < t_max && close > t_min { s0.push(close) } else { s0 };
            if far < t_max && far > t_min { s1.push(far) } else { s1 }
        }
    }
}

pub open spec fn sphere_normal(p: Point3) -> Vec3 {
    vnorm(p)
}

impl Sphere {
    /// Solve `|origin + t * direction|^2 = 1` and keep the roots inside the
    /// window.
    pub fn hit_obj(&self, obj_ray: &Ray, t_min: i64, t_max: i64) -> (v: Vec<i64>)
        ensures
            v@ == sphere_roots(*obj_ray, t_min, t_max),
    {
        let oc: Point3 = obj_ray.origin;
        let a: i64 = obj_ray.direction.squared_length();
        let mut t: Vec<i64> = Vec::new();
        if a == 0 {
            return t;
        }
        let half_b: i64 = oc.dot(&obj_ray.direction);
        let c: i64 = fx_sub(oc.squared_length(), FX_ONE);
        let disc: i64 = fx_sub(fx_mul(half_b, half_b), fx_mul(a, c));
        if disc < 0 {
            return t;
        }
        let sq: i64 = fx_sqrt(disc);
        let mut close: i64 = fx_div(fx_sub(fx_neg(half_b), sq), a);
        let mut far: i64 = fx_div(fx_add(fx_neg(half_b), sq), a);
        if close > far {
            let tmp: i64 = close;
            close = far;
            far = tmp;
        }
        if close < t_max && close > t_min {
            t.push(close);
        }
        if far < t_max && far > t_min {
            t.push(far);
        }
        t
    }

    pub fn normal_obj(&self, point: &Point3) -> (n: Vec3)
        ensures
            n == sphere_normal(*point),
    {
        point.normalise()
    }
}

// ------------------------------------------------------------- plane, disk

/// The single plane root, when the ray is not parallel and the root lies in
/// the window.
pub open spec fn plane_roots(r: Ray, t_min: i64, t_max: i64) -> Seq<i64> {
    if fabs(r.direction.y) < EPS_PARALLEL {
        Seq::<i64>::empty()
    } else {
        let t = fdiv(fneg(r.origin.y), r.direction.y);
        if t < t_min || t > t_max {
            Seq::<i64>::empty()
        } else {
            Seq::<i64>::empty().push(t)
        }
    }
}

/// The plane root, kept only when the hit point lies within unit radius.
pub open spec fn disk_roots(r: Ray, t_min: i64, t_max: i64) -> Seq<i64> {
    if fabs(r.direction.y) < EPS_PARALLEL {
        Seq::<i64>::empty()
    } else {
        let t = fdiv(fneg(r.origin.y), r.direction.y);
        if t < t_min || t > t_max {
            Seq::<i64>::empty()
        } else {
            let distance = vlen(ray_at(r, t));
            if distance > FX_ONE {
                Seq::<i64>::empty()
            } else {
                Seq::<i64>::empty().push(t)
            }
        }
    }
}

pub open spec fn plane_normal() -> Vec3 {
    Vec3 { x: 0, y: FX_ONE as i64, z: 0 }
}

impl Plane {
    pub fn hit_obj(&self, obj_ray: &Ray, t_min: i64, t_max: i64) -> (v: Vec<i64>)
        ensures
            v@ == plane_roots(*obj_ray, t_min, t_max),
    {
        let mut v: Vec<i64> = Vec::new();
        if fx_abs(obj_ray.direction.y) < EPS_PARALLEL {
            return v;
        }
        let t: i64 = fx_div(fx_neg(obj_ray.origin.y), obj_ray.direction.y);
        if t < t_min || t > t_max {
            return v;
        }
        v.push(t);
        v
    }

    /// The untransformed plane's normal points upward everywhere.
    pub fn normal_obj(&self, _point: &Point3) -> (n: Vec3)
        ensures
            n == plane_normal(),
    {
        Vec3 { x: 0, y: FX_ONE, z: 0 }
    }
}

impl Disk {
    pub fn hit_obj(&self, obj_ray: &Ray, t_min: i64, t_max: i64) -> (v: Vec<i64>)
        ensures
            v@ == disk_roots(*obj_ray, t_min, t_max),
    {
        let mut v: Vec<i64> = Vec::new();
        if fx_abs(obj_ray.direction.y) < EPS_PARALLEL {
            return v;
        }
        let t: i64 = fx_div(fx_neg(obj_ray.origin.y), obj_ray.direction.y);
        if t < t_min || t > t_max {
            return v;
        }
        let point: Point3 = obj_ray.at(t);
        let distance: i64 = point.length();
        if distance > FX_ONE {
            return v;
        }
        v.push(t);
        v
    }

    pub fn normal_obj(&self, _point: &Point3) -> (n: Vec3)
        ensures
            n == plane_normal(),
    {
        Vec3 { x: 0, y: FX_ONE, z: 0 }
    }
}

/// A point that satisfies the infinite-plane equation but lies outside unit
/// radius is rejected by the disk where the plane would keep it.
pub proof fn lemma_disk_rejects_outside_radius(r: Ray, t_min: i64, t_max: i64)
    requires
        plane_roots(r, t_min, t_max).len() > 0,
        vlen(ray_at(r, plane_roots(r, t_min, t_max)[0])) > FX_ONE,
    ensures
        disk_roots(r, t_min, t_max).len() == 0,
{
}

// ------------------------------------------------------------------- cube

/// Where an axis's slab is entered and left; a vanishing direction component
/// pushes the bounds out to the ends of the number line.
pub open spec fn check_axis_spec(origin: i64, direction: i64) -> (i64, i64) {
    let tmin_num = fsub(fneg(FX_ONE), origin);
    let tmax_num = fsub(FX_ONE, origin);
    let close = if fabs(direction) >= EPS_DIV {
        fdiv(tmin_num, direction)
    } else {
        if tmin_num > 0 { i64::MAX } else if tmin_num < 0 { i64::MIN } else { 0 }
    };
    let far = if fabs(direction) >= EPS_DIV {
        fdiv(tmax_num, direction)
    } else {
        if tmax_num > 0 { i64::MAX } else if tmax_num < 0 { i64::MIN } else { 0 }
    };
    if close > far {
        (far, close)
    } else {
        (close, far)
    }
}

pub open spec fn max3(a: i64, b: i64, c: i64) -> i64 {
    if a >= b && a >= c { a } else if b >= c { b } else { c }
}

pub open spec fn min3(a: i64, b: i64, c: i64) -> i64 {
    if a <= b && a <= c { a } else if b <= c { b } else { c }
}

/// The slab test: the entry is the largest per-axis entry, the exit the
/// smallest per-axis exit; the ray misses when they cross.
pub open spec fn cube_roots(r: Ray, t_min: i64, t_max: i64) -> Seq<i64> {
    let x = check_axis_spec(r.origin.x, r.direction.x);
    let y = check_axis_spec(r.origin.y, r.direction.y);
    let z = check_axis_spec(r.origin.z, r.direction.z);
    let close = max3(x.0, y.0, z.0);
    let far = min3(x.1, y.1, z.1);
    if close > far {
        Seq::<i64>::empty()
    } else {
        let s0 = Seq::<i64>::empty();
        let s1 = if close > t_min && close < t_max { s0.push(close) } else { s0 };
        if far > t_min && far < t_max { s1.push(far) } else { s1 }
    }
}

/// The face the point lies on is the one of its largest coordinate.
pub open spec fn cube_normal(p: Point3) -> Vec3 {
    let ax = fabs(p.x);
    let ay = fabs(p.y);
    let az = fabs(p.z);
    let max_c = max3(ax, ay, az);
    if max_c == ax {
        Vec3 { x: p.x, y: 0, z: 0 }
    } else if max_c == ay {
        Vec3 { x: 0, y: p.y, z: 0 }
    } else {
        Vec3 { x: 0, y: 0, z: p.z }
    }
}

impl AxisAlignedBoundingBox {
    fn check_axis(&self, origin: i64, direction: i64) -> (r: (i64, i64))
        ensures
            r == check_axis_spec(origin, direction),
    {
        let tmin_num: i64 = fx_sub(fx_neg(FX_ONE), origin);
        let tmax_num: i64 = fx_sub(FX_ONE, origin);
        let mut close: i64;
        let mut far: i64;
        if fx_abs(direction) >= EPS_DIV {
            close = fx_div(tmin_num, direction);
            far = fx_div(tmax_num, direction);
        } else {
            close = if tmin_num > 0 { i64::MAX } else if tmin_num < 0 { i64::MIN } else { 0 };
            far = if tmax_num > 0 { i64::MAX } else if tmax_num < 0 { i64::MIN } else { 0 };
        }
        if close > far {
            (far, close)
        } else {
            (close, far)
        }
    }

    pub fn hit_obj(&self, obj_ray: &Ray, t_min: i64, t_max: i64) -> (v: Vec<i64>)
        ensures
            v@ == cube_roots(*obj_ray, t_min, t_max),
    {
        let x: (i64, i64) = self.check_axis(obj_ray.origin.x, obj_ray.direction.x);
        let y: (i64, i64) = self.check_axis(obj_ray.origin.y, obj_ray.direction.y);
        let z: (i64, i64) = self.check_axis(obj_ray.origin.z, obj_ray.direction.z);

        let mut close: i64 = x.0;
        if y.0 > close {
            close = y.0;
        }
        if z.0 > close {
            close = z.0;
        }
        let mut far: i64 = x.1;
        if y.1 < far {
            far = y.1;
        }
        if z.1 < far {
            far = z.1;
        }
        let mut v: Vec<i64> = Vec::new();
        if close > far {
            return v;
        }
        if close > t_min && close < t_max {
            v.push(close);
        }
        if far > t_min && far < t_max {
            v.push(far);
        }
        v
    }

    pub fn normal_obj(&self, point: &Point3) -> (n: Vec3)
        ensures
            n == cube_normal(*point),
    {
        let ax: i64 = fx_abs(point.x);
        let ay: i64 = fx_abs(point.y);
        let az: i64 = fx_abs(point.z);
        let mut max_c: i64 = ax;
        if ay > max_c {
            max_c = ay;
        }
        if az > max_c {
            max_c = az;
        }
        if max_c == ax {
            Vec3 { x: point.x, y: 0, z: 0 }
        } else if max_c == ay {
            Vec3 { x: 0, y: point.y, z: 0 }
        } else {
            Vec3 { x: 0, y: 0, z: point.z }
        }
    }
}

// --------------------------------------------------------------- cylinder

/// Whether the hit at `t` lies within the unit radius of a cylinder cap.
pub open spec fn cyl_cap_ok(r: Ray, t: i64) -> bool {
    let x = fadd(r.origin.x, fmul(t, r.direction.x));
    let z = fadd(r.origin.z, fmul(t, r.direction.z));
    fadd(fmul(x, x), fmul(z, z)) <= FX_ONE
}

/// Hits on the two end caps, when the cylinder is capped and the ray is not
/// parallel to them.
pub open spec fn cyl_cap_roots(c: Cylinder, r: Ray, t_min: i64, t_max: i64) -> Seq<i64> {
    if !c.capped || r.direction.y == 0 {
        Seq::<i64>::empty()
    } else {
        let t0 = fdiv(fsub(c.min, r.origin.y), r.direction.y);
        let t1 = fdiv(fsub(c.max, r.origin.y), r.direction.y);
        let s0 = Seq::<i64>::empty();
        let s1 = if t0 >= t_min && t0 <= t_max && cyl_cap_ok(r, t0) { s0.push(t0) } else { s0 };
        if t1 >= t_min && t1 <= t_max && cyl_cap_ok(r, t1) { s1.push(t1) } else { s1 }
    }
}

/// Wall hits from the quadratic in x and z, trimmed to the height range,
/// followed by the cap hits.
pub open spec fn cyl_roots(c: Cylinder, r: Ray, t_min: i64, t_max: i64) -> Seq<i64> {
    let a = fadd(fmul(r.direction.x, r.direction.x), fmul(r.direction.z, r.direction.z));
    if a == 0 {
        cyl_cap_roots(c, r, t_min, t_max)
    } else {
        let h1 = fmul(r.origin.x, r.direction.x);
        let h2 = fmul(r.origin.z, r.direction.z);
        let b = fadd(fadd(h1, h1), fadd(h2, h2));
        let cc = fsub(fadd(fmul(r.origin.x, r.origin.x), fmul(r.origin.z, r.origin.z)), FX_ONE);
        let a4 = fadd(fadd(a, a), fadd(a, a));
        let disc = fsub(fmul(b, b), fmul(a4, cc));
        if disc < 0 {
            Seq::<i64>::empty()
        } else {
            let sq = fsqrt(disc);
            let two_a = fadd(a, a);
            let r1 = fdiv(fsub(fneg(b), sq), two_a);
            let r2 = fdiv(fadd(fneg(b), sq), two_a);
            let close = if r1 > r2 { r2 } else { r1 };
            let far = if r1 > r2 { r1 } else { r2 };
            let y0 = fadd(r.origin.y, fmul(close, r.direction.y));
            let y1 = fadd(r.origin.y, fmul(far, r.direction.y));
            let s0 = Seq::<i64>::empty();
            let s1 = if close > t_min && close < t_max && y0 < c.max && y0 > c.min {
                s0.push(close)
            } else {
                s0
            };
            let s2 = if far > t_min && far < t_max && y1 < c.max && y1 > c.min {
                s1.push(far)
            } else {
                s1
            };
            s2 + cyl_cap_roots(c, r, t_min, t_max)
        }
    }
}

/// Cap normals near the cut heights, the radial direction on the wall.
pub open spec fn cyl_normal(c: Cylinder, p: Point3) -> Vec3 {
    let dist = fadd(fmul(p.x, p.x), fmul(p.z, p.z));
    if dist < FX_ONE && p.y >= fsub(c.max, EPS_CAP) {
        Vec3 { x: 0, y: FX_ONE as i64, z: 0 }
    } else if dist < FX_ONE && p.y <= fadd(c.min, EPS_CAP) {
        Vec3 { x: 0, y: fneg(FX_ONE), z: 0 }
    } else {
        Vec3 { x: p.x, y: 0, z: p.z }
    }
}

impl Cylinder {
    fn check_caps(ray: &Ray, t: i64) -> (ok: bool)
        ensures
            ok == cyl_cap_ok(*ray, t),
    {
        let x: i64 = fx_add(ray.origin.x, fx_mul(t, ray.direction.x));
        let z: i64 = fx_add(ray.origin.z, fx_mul(t, ray.direction.z));
        fx_add(fx_mul(x, x), fx_mul(z, z)) <= FX_ONE
    }

    fn hit_caps(&self, ray: &Ray, t_min: i64, t_max: i64) -> (v: Vec<i64>)
        ensures
            v@ == cyl_cap_roots(*self, *ray, t_min, t_max),
    {
        let mut v: Vec<i64> = Vec::new();
        if !self.capped || ray.direction.y == 0 {
            return v;
        }
        let t0: i64 = fx_div(fx_sub(self.min, ray.origin.y), ray.direction.y);
        if t0 >= t_min && t0 <= t_max && Self::check_caps(ray, t0) {
            v.push(t0);
        }
        let t1: i64 = fx_div(fx_sub(self.max, ray.origin.y), ray.direction.y);
        if t1 >= t_min && t1 <= t_max && Self::check_caps(ray, t1) {
            v.push(t1);
        }
        v
    }

    pub fn hit_obj(&self, obj_ray: &Ray, t_min: i64, t_max: i64) -> (v: Vec<i64>)
        ensures
            v@ == cyl_roots(*self, *obj_ray, t_min, t_max),
    {
        let a: i64 = fx_add(
            fx_mul(obj_ray.direction.x, obj_ray.direction.x),
            fx_mul(obj_ray.direction.z, obj_ray.direction.z),
        );
        if a == 0 {
            return self.hit_caps(obj_ray, t_min, t_max);
        }
        let h1: i64 = fx_mul(obj_ray.origin.x, obj_ray.direction.x);
        let h2: i64 = fx_mul(obj_ray.origin.z, obj_ray.direction.z);
        let b: i64 = fx_add(fx_add(h1, h1), fx_add(h2, h2));
        let cc: i64 = fx_sub(
            fx_add(
                fx_mul(obj_ray.origin.x, obj_ray.origin.x),
                fx_mul(obj_ray.origin.z, obj_ray.origin.z),
            ),
            FX_ONE,
        );
        let a4: i64 = fx_add(fx_add(a, a), fx_add(a, a));
        let disc: i64 = fx_sub(fx_mul(b, b), fx_mul(a4, cc));
        let mut v: Vec<i64> = Vec::new();
        if disc < 0 {
            return v;
        }
        let sq: i64 = fx_sqrt(disc);
        let two_a: i64 = fx_add(a, a);
        let mut close: i64 = fx_div(fx_sub(fx_neg(b), sq), two_a);
        let mut far: i64 = fx_div(fx_add(fx_neg(b), sq), two_a);
        if close > far {
            let tmp: i64 = close;
            close = far;
            far = tmp;
        }
        if close > t_min && close < t_max {
            let y0: i64 = fx_add(obj_ray.origin.y, fx_mul(close, obj_ray.direction.y));
            if y0 < self.max && y0 > self.min {
                v.push(close);
            }
        }
        if far > t_min && far < t_max {
            let y1: i64 = fx_add(obj_ray.origin.y, fx_mul(far, obj_ray.direction.y));
            if y1 < self.max && y1 > self.min {
                v.push(far);
            }
        }
        let mut caps: Vec<i64> = self.hit_caps(obj_ray, t_min, t_max);
        v.append(&mut caps);
        v
    }

    pub fn normal_obj(&self, point: &Point3) -> (n: Vec3)
        ensures
            n == cyl_normal(*self, *point),
    {
        let dist: i64 = fx_add(fx_mul(point.x, point.x), fx_mul(point.z, point.z));
        if dist < FX_ONE && point.y >= fx_sub(self.max, EPS_CAP) {
            Vec3 { x: 0, y: FX_ONE, z: 0 }
        } else if dist < FX_ONE && point.y <= fx_add(self.min, EPS_CAP) {
            Vec3 { x: 0, y: fx_neg(FX_ONE), z: 0 }
        } else {
            Vec3 { x: point.x, y: 0, z: point.z }
        }
    }
}

// ------------------------------------------------------------------- cone

/// Whether the hit at `t` lies within the cone's radius at its height: the
/// radius at height `y` is `|y|`, so the test compares against `y^2`.
pub open spec fn cone_cap_ok(r: Ray, t: i64) -> bool {
    let x = fadd(r.origin.x, fmul(t, r.direction.x));
    let y = fadd(r.origin.y, fmul(t, r.direction.y));
    let z = fadd(r.origin.z, fmul(t, r.direction.z));
    fadd(fmul(x, x), fmul(z, z)) <= fmul(y, y)
}

pub open spec fn cone_cap_roots(c: Cone, r: Ray, t_min: i64, t_max: i64) -> Seq<i64> {
    if !c.capped || r.direction.y == 0 {
        Seq::<i64>::empty()
    } else {
        let t0 = fdiv(fsub(c.min, r.origin.y), r.direction.y);
        let t1 = fdiv(fsub(c.max, r.origin.y), r.direction.y);
        let s0 = Seq::<i64>::empty();
        let s1 = if t0 >= t_min && t0 <= t_max && cone_cap_ok(r, t0) { s0.push(t0) } else { s0 };
        if t1 >= t_min && t1 <= t_max && cone_cap_ok(r, t1) { s1.push(t1) } else { s1 }
    }
}

/// The cone quadratic has a signed y term; when its leading coefficient
/// vanishes the equation is linear and is solved directly.
pub open spec fn cone_roots(c: Cone, r: Ray, t_min: i64, t_max: i64) -> Seq<i64> {
    let a = fadd(fsub(fmul(r.direction.x, r.direction.x), fmul(r.direction.y, r.direction.y)),
        fmul(r.direction.z, r.direction.z));
    let hb = fadd(fsub(fmul(r.origin.x, r.direction.x), fmul(r.origin.y, r.direction.y)),
        fmul(r.origin.z, r.direction.z));
    let b = fadd(hb, hb);
    let cc = fadd(fsub(fmul(r.origin.x, r.origin.x), fmul(r.origin.y, r.origin.y)),
        fmul(r.origin.z, r.origin.z));
    if a == 0 {
        if b == 0 {
            Seq::<i64>::empty()
        } else {
            let t = fdiv(fneg(cc), fadd(b, b));
            let s0 = if t > t_min && t < t_max { Seq::<i64>::empty().push(t) } else {
                Seq::<i64>::empty()
            };
            s0 + cone_cap_roots(c, r, t_min, t_max)
        }
    } else {
        let a4 = fadd(fadd(a, a), fadd(a, a));
        let disc = fsub(fmul(b, b), fmul(a4, cc));
        if disc < 0 {
            Seq::<i64>::empty()
        } else {
            let sq = fsqrt(disc);
            let two_a = fadd(a, a);
            let r1 = fdiv(fsub(fneg(b), sq), two_a);
            let r2 = fdiv(fadd(fneg(b), sq), two_a);
            let close = if r1 > r2 { r2 } else { r1 };
            let far = if r1 > r2 { r1 } else { r2 };
            let y0 = fadd(r.origin.y, fmul(close, r.direction.y));
            let y1 = fadd(r.origin.y, fmul(far, r.direction.y));
            let s0 = Seq::<i64>::empty();
            let s1 = if close > t_min && close < t_max && c.min < y0 && y0 < c.max {
                s0.push(close)
            } else {
                s0
            };
            let s2 = if far > t_min && far < t_max && c.min < y1 && y1 < c.max {
                s1.push(far)
            } else {
                s1
            };
            s2 + cone_cap_roots(c, r, t_min, t_max)
        }
    }
}

pub open spec fn cone_normal(c: Cone, p: Point3) -> Vec3 {
    let dist = fadd(fmul(p.x, p.x), fmul(p.z, p.z));
    if dist < FX_ONE && p.y >= fsub(c.max, EPS_CAP) {
        Vec3 { x: 0, y: FX_ONE as i64, z: 0 }
    } else if dist < FX_ONE && p.y <= fadd(c.min, EPS_CAP) {
        Vec3 { x: 0, y: fneg(FX_ONE), z: 0 }
    } else {
        Vec3 { x: p.x, y: fneg(p.y), z: p.z }
    }
}

impl Cone {
    fn check_caps(ray: &Ray, t: i64) -> (ok: bool)
        ensures
            ok == cone_cap_ok(*ray, t),
    {
        let x: i64 = fx_add(ray.origin.x, fx_mul(t, ray.direction.x));
        let y: i64 = fx_add(ray.origin.y, fx_mul(t, ray.direction.y));
        let z: i64 = fx_add(ray.origin.z, fx_mul(t, ray.direction.z));
        fx_add(fx_mul(x, x), fx_mul(z, z)) <= fx_mul(y, y)
    }

    fn hit_caps(&self, ray: &Ray, t_min: i64, t_max: i64) -> (v: Vec<i64>)
        ensures
            v@ == cone_cap_roots(*self, *ray, t_min, t_max),
    {
        let mut v: Vec<i64> = Vec::new();
        if !self.capped || ray.direction.y == 0 {
            return v;
        }
        let t0: i64 = fx_div(fx_sub(self.min, ray.origin.y), ray.direction.y);
        if t0 >= t_min && t0 <= t_max && Self::check_caps(ray, t0) {
            v.push(t0);
        }
        let t1: i64 = fx_div(fx_sub(self.max, ray.origin.y), ray.direction.y);
        if t1 >= t_min && t1 <= t_max && Self::check_caps(ray, t1) {
            v.push(t1);
        }
        v
    }

    pub fn hit_obj(&self, obj_ray: &Ray, t_min: i64, t_max: i64) -> (v: Vec<i64>)
        ensures
            v@ == cone_roots(*self, *obj_ray, t_min, t_max),
    {
        let a: i64 = fx_add(
            fx_sub(
                fx_mul(obj_ray.direction.x, obj_ray.direction.x),
                fx_mul(obj_ray.direction.y, obj_ray.direction.y),
            ),
            fx_mul(obj_ray.direction.z, obj_ray.direction.z),
        );
        let hb: i64 = fx_add(
            fx_sub(
                fx_mul(obj_ray.origin.x, obj_ray.direction.x),
                fx_mul(obj_ray.origin.y, obj_ray.direction.y),
            ),
            fx_mul(obj_ray.origin.z, obj_ray.direction.z),
        );
        let b: i64 = fx_add(hb, hb);
        let cc: i64 = fx_add(
            fx_sub(
                fx_mul(obj_ray.origin.x, obj_ray.origin.x),
                fx_mul(obj_ray.origin.y, obj_ray.origin.y),
            ),
            fx_mul(obj_ray.origin.z, obj_ray.origin.z),
        );
        let mut v: Vec<i64> = Vec::new();
        if a == 0 {
            if b == 0 {
                return v;
            }
            let t: i64 = fx_div(fx_neg(cc), fx_add(b, b));
            if t > t_min && t < t_max {
                v.push(t);
            }
            let mut caps: Vec<i64> = self.hit_caps(obj_ray, t_min, t_max);
            v.append(&mut caps);
            return v;
        }
        let a4: i64 = fx_add(fx_add(a, a), fx_add(a, a));
        let disc: i64 = fx_sub(fx_mul(b, b), fx_mul(a4, cc));
        if disc < 0 {
            return v;
        }
        let sq: i64 = fx_sqrt(disc);
        let two_a: i64 = fx_add(a, a);
        let mut close: i64 = fx_div(fx_sub(fx_neg(b), sq), two_a);
        let mut far: i64 = fx_div(fx_add(fx_neg(b), sq), two_a);
        if close > far {
            let tmp: i64 = close;
            close = far;
            far = tmp;
        }
        if close > t_min && close < t_max {
            let y0: i64 = fx_add(obj_ray.origin.y, fx_mul(close, obj_ray.direction.y));
            if self.min < y0 && y0 < self.max {
                v.push(close);
            }
        }
        if far > t_min && far < t_max {
            let y1: i64 = fx_add(obj_ray.origin.y, fx_mul(far, obj_ray.direction.y));
            if self.min < y1 && y1 < self.max {
                v.push(far);
            }
        }
        let mut caps: Vec<i64> = self.hit_caps(obj_ray, t_min, t_max);
        v.append(&mut caps);
        v
    }

    pub fn normal_obj(&self, point: &Point3) -> (n: Vec3)
        ensures
            n == cone_normal(*self, *point),
    {
        let dist: i64 = fx_add(fx_mul(point.x, point.x), fx_mul(point.z, point.z));
        if dist < FX_ONE && point.y >= fx_sub(self.max, EPS_CAP) {
            Vec3 { x: 0, y: FX_ONE, z: 0 }
        } else if dist < FX_ONE && point.y <= fx_add(self.min, EPS_CAP) {
            Vec3 { x: 0, y: fx_neg(FX_ONE), z: 0 }
        } else {
            Vec3 { x: point.x, y: fx_neg(point.y), z: point.z }
        }
    }
}

} // verus!
