//! Objects: a primitive shape placed in the world by a transform, with a
//! material and a stable identifier.

use vstd::prelude::*;

use crate::fixed::FX_ONE;
use crate::intersection::Intersection;
use crate::material::{material_colour_at, Material};
use crate::matrix::{mat_transpose, mpoint, mvec};
use crate::ray::{ray_at, ray_transform, Ray};
use crate::shapes::{cone_normal, cone_roots, cube_normal, cube_roots, cyl_normal, cyl_roots,
    disk_roots, plane_normal, plane_roots, sphere_normal, sphere_roots,
    AxisAlignedBoundingBox, Cone, Cylinder, Disk, Plane, Sphere};
use crate::transform::Transform;
use crate::vec3::{vadd, vdot, vneg, vnorm, vreflect, vscale, vsub, Point3, Vec3};

verus! {

/// How far hit points are pushed off a surface along its normal, so that
/// shadow, reflection and refraction rays do not strike their own origin.
pub const SURFACE_EPS: i64 = 1_000;

/// The closed set of primitive shapes.
#[derive(Clone, Copy, Debug, PartialEq, Eq, Structural)]
pub enum Shape {
    Sphere(Sphere),
    Plane(Plane),
    Disk(Disk),
    Cube(AxisAlignedBoundingBox),
    Cylinder(Cylinder),
    Cone(Cone),
}

/// A shape placed in the world.
#[derive(Clone, Copy, Debug, PartialEq, Eq, Structural)]
pub struct Object {
    pub shape: Shape,
    /// Stable identifier, dense from zero in scene order; the refraction
    /// bookkeeping tells objects apart by it.
    pub id: usize,
    pub transform: Transform,
    pub material: Material,
}

/// The object-space hit parameters of a shape.
pub open spec fn shape_roots(s: Shape, r: Ray, t_min: i64, t_max: i64) -> Seq<i64> {
    match s {
        Shape::Sphere(_) => sphere_roots(r, t_min, t_max),
        Shape::Plane(_) => plane_roots(r, t_min, t_max),
        Shape::Disk(_) => disk_roots(r, t_min, t_max),
        Shape::Cube(_) => cube_roots(r, t_min, t_max),
        Shape::Cylinder(c) => cyl_roots(c, r, t_min, t_max),
        Shape::Cone(c) => cone_roots(c, r, t_min, t_max),
    }
}

/// The object-space normal of a shape at an object-space point.
pub open spec fn shape_normal(s: Shape, p: Point3) -> Vec3 {
    match s {
        Shape::Sphere(_) => sphere_normal(p),
        Shape::Plane(_) => plane_normal(),
        Shape::Disk(_) => plane_normal(),
        Shape::Cube(_) => cube_normal(p),
        Shape::Cylinder(c) => cyl_normal(c, p),
        Shape::Cone(c) => cone_normal(c, p),
    }
}

/// The world-space outward normal: the object-space normal carried through
/// the transpose of the inverse transform, renormalised.
pub open spec fn normal_at_spec(o: Object, world_point: Point3) -> Vec3 {
    let obj_point = mpoint(o.transform.inverse, world_point);
    let obj_normal = shape_normal(o.shape, obj_point);
    vnorm(mvec(mat_transpose(o.transform.inverse), obj_normal))
}

/// The full intersection record for a hit of `world_ray` at parameter `t`.
pub open spec fn make_intersection_spec(o: Object, world_ray: Ray, t: i64) -> Intersection {
    let point = ray_at(world_ray, t);
    let outward = normal_at_spec(o, point);
    let front_face = vdot(world_ray.direction, outward) < 0;
    let normal = if front_face {
        outward
    } else {
        vneg(outward)
    };
    let over_point = vadd(point, vscale(normal, SURFACE_EPS));
    Intersection {
        id: 0,
        obj_id: o.id,
        point,
        normal,
        material: o.material,
        t,
        front_face,
        eye: vneg(world_ray.direction),
        reflect: vreflect(world_ray.direction, normal),
        colour: material_colour_at(o.material, over_point, o.transform.inverse),
        over_point,
        under_point: vsub(point, vscale(normal, SURFACE_EPS)),
        exit_idx: FX_ONE as i64,
        enter_idx: FX_ONE as i64,
    }
}

/// All intersection records of one object along a ray: one per object-space
/// root, in the shape's own order.
pub open spec fn object_hit_spec(o: Object, world_ray: Ray, t_min: i64, t_max: i64) -> Seq<
    Intersection,
> {
    let roots = shape_roots(o.shape, ray_transform(world_ray, o.transform.inverse), t_min, t_max);
    Seq::new(roots.len(), |i: int| make_intersection_spec(o, world_ray, roots[i]))
}

impl Object {
    /// Object-space hit parameters of this object's shape.
    pub fn hit_obj(&self, obj_ray: &Ray, t_min: i64, t_max: i64) -> (v: Vec<i64>)
        ensures
            v@ == shape_roots(self.shape, *obj_ray, t_min, t_max),
    {
        match &self.shape {
            Shape::Sphere(s) => s.hit_obj(obj_ray, t_min, t_max),
            Shape::Plane(s) => s.hit_obj(obj_ray, t_min, t_max),
            Shape::Disk(s) => s.hit_obj(obj_ray, t_min, t_max),
            Shape::Cube(s) => s.hit_obj(obj_ray, t_min, t_max),
            Shape::Cylinder(s) => s.hit_obj(obj_ray, t_min, t_max),
            Shape::Cone(s) => s.hit_obj(obj_ray, t_min, t_max),
        }
    }

    /// Object-space normal of this object's shape.
    pub fn normal_obj(&self, point: &Point3) -> (n: Vec3)
        ensures
            n == shape_normal(self.shape, *point),
    {
        match &self.shape {
            Shape::Sphere(s) => s.normal_obj(point),
            Shape::Plane(s) => s.normal_obj(point),
            Shape::Disk(s) => s.normal_obj(point),
            Shape::Cube(s) => s.normal_obj(point),
            Shape::Cylinder(s) => s.normal_obj(point),
            Shape::Cone(s) => s.normal_obj(point),
        }
    }

    /// The world-space normal at a world-space point on the surface.
    pub fn normal_at(&self, point: &Point3) -> (n: Vec3)
        ensures
            n == normal_at_spec(*self, *point),
    {
        let obj_point: Point3 = self.transform.inverse.transform_point(point);
        let obj_normal: Vec3 = self.normal_obj(&obj_point);
        let world_normal: Vec3 = self.transform.inverse.transpose().transform_vector(&obj_normal);
        world_normal.normalise()
    }

    /// Intersect a world-space ray with this object: carry the ray into
    /// object space, collect the roots, and build one record per root.
    pub fn hit(&self, ray: &Ray, t_min: i64, t_max: i64) -> (v: Vec<Intersection>)
        ensures
            v@ == object_hit_spec(*self, *ray, t_min, t_max),
    {
        let obj_ray: Ray = ray.transform(&self.transform.inverse);
        let ts: Vec<i64> = self.hit_obj(&obj_ray, t_min, t_max);
        let mut v: Vec<Intersection> = Vec::new();
        let ghost roots = shape_roots(self.shape, ray_transform(*ray, self.transform.inverse),
            t_min, t_max);
        let mut i: usize = 0;
        while i < ts.len()
            invariant
                0 <= i <= ts.len(),
                ts@ == roots,
                v@.len() == i as int,
                forall|j: int|
                    0 <= j < i as int ==> v@[j] == make_intersection_spec(*self, *ray, roots[j]),
            decreases ts.len() - i,
        {
            let t: i64 = ts[i];
            v.push(self.make_intersection(ray, t));
            i = i + 1;
        }
        proof {
            assert(v@ =~= object_hit_spec(*self, *ray, t_min, t_max));
        }
        v
    }

    fn make_intersection(&self, ray: &Ray, t: i64) -> (hit: Intersection)
        ensures
            hit == make_intersection_spec(*self, *ray, t),
    {
        let point: Point3 = ray.at(t);
        let outward: Vec3 = self.normal_at(&point);
        let front_face: bool = ray.direction.dot(&outward) < 0;
        let normal: Vec3 = if front_face {
            outward
        } else {
            outward.neg()
        };
        let refl: Vec3 = crate::vec3::reflect(&ray.direction, &normal);
        let over_point: Point3 = point.add(&normal.mul_scalar(SURFACE_EPS));
        let under_point: Point3 = point.sub(&normal.mul_scalar(SURFACE_EPS));
        let colour = self.material.colour_at(&over_point, &self.transform.inverse);
        Intersection {
            id: 0,
            obj_id: self.id,
            point,
            normal,
            material: self.material,
            t,
            front_face,
            eye: ray.direction.neg(),
            reflect: refl,
            colour,
            over_point,
            under_point,
            exit_idx: FX_ONE,
            enter_idx: FX_ONE,
        }
    }

    pub fn id(&self) -> (r: usize)
        ensures
            r == self.id,
    {
        self.id
    }

    pub fn set_id(&mut self, id: usize)
        ensures
            *final(self) == (Object { id, ..*old(self) }),
    {
        self.id = id;
    }

    pub fn translate(&mut self, x: i64, y: i64, z: i64)
        ensures
            final(self).shape == old(self).shape,
            final(self).id == old(self).id,
            final(self).material == old(self).material,
            final(self).transform.matrix == crate::matrix::mat_mul(
                old(self).transform.matrix,
                crate::transform::translation_mat(x, y, z),
            ),
            final(self).transform.inverse == crate::matrix::mat_mul(
                crate::transform::translation_mat(
                    crate::fixed::fneg(x),
                    crate::fixed::fneg(y),
                    crate::fixed::fneg(z),
                ),
                old(self).transform.inverse,
            ),
    {
        self.transform.translate(x, y, z);
    }

    pub fn scale(&mut self, x: i64, y: i64, z: i64)
        requires
            x != 0,
            y != 0,
            z != 0,
        ensures
            final(self).shape == old(self).shape,
            final(self).id == old(self).id,
            final(self).material == old(self).material,
            final(self).transform.matrix == crate::matrix::mat_mul(
                old(self).transform.matrix,
                crate::transform::scaling_mat(x, y, z),
            ),
            final(self).transform.inverse == crate::matrix::mat_mul(
                crate::transform::scaling_mat(
                    crate::fixed::fdiv(FX_ONE, x),
                    crate::fixed::fdiv(FX_ONE, y),
                    crate::fixed::fdiv(FX_ONE, z),
                ),
                old(self).transform.inverse,
            ),
    {
        self.transform.scale(x, y, z);
    }

    pub fn scale_uniform(&mut self, s: i64)
        requires
            s != 0,
        ensures
            final(self).shape == old(self).shape,
            final(self).id == old(self).id,
            final(self).material == old(self).material,
            final(self).transform.matrix == crate::matrix::mat_mul(
                old(self).transform.matrix,
                crate::transform::scaling_mat(s, s, s),
            ),
            final(self).transform.inverse == crate::matrix::mat_mul(
                crate::transform::scaling_mat(
                    crate::fixed::fdiv(FX_ONE, s),
                    crate::fixed::fdiv(FX_ONE, s),
                    crate::fixed::fdiv(FX_ONE, s),
                ),
                old(self).transform.inverse,
            ),
    {
        self.transform.scale_uniform(s);
    }

    pub fn rotate(&mut self, axis: crate::Axis, angle: i64)
        ensures
            final(self).shape == old(self).shape,
            final(self).id == old(self).id,
            final(self).material == old(self).material,
            final(self).transform.matrix == crate::matrix::mat_mul(
                old(self).transform.matrix,
                crate::transform::rotation_mat(axis, angle),
            ),
            final(self).transform.inverse == crate::matrix::mat_mul(
                mat_transpose(crate::transform::rotation_mat(axis, angle)),
                old(self).transform.inverse,
            ),
    {
        self.transform.rotate(axis, angle);
    }
}

impl Sphere {
    /// A unit sphere at the origin with the given material.
    pub fn new(material: Material) -> (o: Object)
        ensures
            o.shape == Shape::Sphere(Sphere {  }),
            o.id == 0,
            o.transform == Transform::spec_identity(),
            o.material == material,
    {
        Object { shape: Shape::Sphere(Sphere {  }), id: 0, transform: Transform::new(), material }
    }
}

impl Plane {
    /// An infinite plane through the origin, normal +Y.
    pub fn new(material: Material) -> (o: Object)
        ensures
            o.shape == Shape::Plane(Plane {  }),
            o.id == 0,
            o.transform == Transform::spec_identity(),
            o.material == material,
    {
        Object { shape: Shape::Plane(Plane {  }), id: 0, transform: Transform::new(), material }
    }
}

impl Disk {
    /// A unit-radius disk in that plane.
    pub fn new(material: Material) -> (o: Object)
        ensures
            o.shape == Shape::Disk(Disk {  }),
            o.id == 0,
            o.transform == Transform::spec_identity(),
            o.material == material,
    {
        Object { shape: Shape::Disk(Disk {  }), id: 0, transform: Transform::new(), material }
    }
}

impl AxisAlignedBoundingBox {
    /// The unit cube, axis aligned.
    pub fn new(material: Material) -> (o: Object)
        ensures
            o.shape == Shape::Cube(AxisAlignedBoundingBox {  }),
            o.id == 0,
            o.transform == Transform::spec_identity(),
            o.material == material,
    {
        Object {
            shape: Shape::Cube(AxisAlignedBoundingBox {  }),
            id: 0,
            transform: Transform::new(),
            material,
        }
    }
}

impl Cylinder {
    /// A unit cylinder about the y axis, cut to `[min, max]`.
    pub fn new(material: Material, min: i64, max: i64, capped: bool) -> (o: Object)
        ensures
            o.shape == Shape::Cylinder(Cylinder { min, max, capped }),
            o.id == 0,
            o.transform == Transform::spec_identity(),
            o.material == material,
    {
        Object {
            shape: Shape::Cylinder(Cylinder { min, max, capped }),
            id: 0,
            transform: Transform::new(),
            material,
        }
    }
}

impl Cone {
    /// A double cone about the y axis, cut to `[min, max]`.
    pub fn new(material: Material, min: i64, max: i64, capped: bool) -> (o: Object)
        ensures
            o.shape == Shape::Cone(Cone { min, max, capped }),
            o.id == 0,
            o.transform == Transform::spec_identity(),
            o.material == material,
    {
        Object {
            shape: Shape::Cone(Cone { min, max, capped }),
            id: 0,
            transform: Transform::new(),
            material,
        }
    }
}

} // verus!
