//! The scene: every object and light, and the recursive colour composition
//! that blends surface, reflected and refracted light.

use vstd::prelude::*;

use crate::colour::{black, cadd, cscale, Colour};
use crate::fixed::{fdiv, fmul, fsqrt, fsub, fx_div_total, fx_mul, fx_sqrt, fx_sub, FX_ONE};
use crate::intersection::{compute_intersections, compute_intersections_spec, schlick_spec,
    sort_by_t, sorted_insert, with_refraction, Intersection};
use crate::light::Light;
use crate::material::{lighting, Material};
use crate::object::{object_hit_spec, Object};
use crate::ray::Ray;
use crate::vec3::{vdot, vlen, vnorm, vscale, vsub, Point3, Vec3};

verus! {

/// Shading admits hits from marginally behind the ray origin, so that a
/// surface the origin sits on is not lost to rounding.
pub const SHADE_T_MIN: i64 = -1_000;

/// Shadow rays only count hits clearly in front of their origin.
pub const SHADOW_T_MIN: i64 = 1_000;

#[derive(Debug)]
pub struct Scene {
    pub objects: Vec<Object>,
    pub lights: Vec<Light>,
    pub background: Colour,
    pub id_counter: usize,
}

/// Every hit of the ray against every object, in object order; each
/// object's own hits keep the order its shape reported.
pub open spec fn scene_hits(objects: Seq<Object>, r: Ray, t_min: i64, t_max: i64) -> Seq<
    Intersection,
>
    decreases objects.len(),
{
    if objects.len() == 0 {
        Seq::<Intersection>::empty()
    } else {
        scene_hits(objects.drop_last(), r, t_min, t_max) + object_hit_spec(
            objects.last(),
            r,
            t_min,
            t_max,
        )
    }
}

/// Whether the first light is blocked from the point: some hit along the
/// shadow ray lies strictly closer than the light.
pub open spec fn is_shadowed_spec(objects: Seq<Object>, lights: Seq<Light>, point: Point3) -> bool {
    let shadow_vec = vsub(lights[0].position, point);
    let distance = vlen(shadow_vec);
    let direction = vnorm(shadow_vec);
    let hits = scene_hits(
        objects,
        Ray { origin: point, direction },
        SHADOW_T_MIN,
        i64::MAX,
    );
    exists|i: int| 0 <= i < hits.len() && hits[i].t < distance
}

/// The colour seen along a ray: background when nothing is hit; otherwise
/// the Phong surface colour of the nearest hit plus the reflected and
/// refracted contributions, Fresnel-blended when the material both reflects
/// and transmits.
pub open spec fn scene_colour_at(
    objects: Seq<Object>,
    lights: Seq<Light>,
    background: Colour,
    r: Ray,
    depth: nat,
) -> Colour
    decreases depth, 1int,
{
    let hits = scene_hits(objects, r, SHADE_T_MIN, i64::MAX);
    if hits.len() == 0 {
        background
    } else {
        let processed = compute_intersections_spec(hits);
        let hit = processed[0];
        let in_shadow = is_shadowed_spec(objects, lights, hit.over_point);
        let surface = lighting(hit.material, lights[0], hit, in_shadow);
        let reflected = reflected_colour_spec(objects, lights, background, hit.material, hit,
            depth);
        let refracted = refracted_colour_spec(objects, lights, background, hit.material, hit,
            depth);
        if hit.material.reflect > 0 && hit.material.transparency > 0 {
            let reflectance = schlick_spec(hit);
            cadd(
                cadd(surface, cscale(reflected, reflectance)),
                cscale(refracted, fsub(FX_ONE, reflectance)),
            )
        } else {
            cadd(cadd(surface, reflected), refracted)
        }
    }
}

/// The reflected contribution: nothing at depth zero or on a matte
/// material, else the colour along the bounced ray scaled by the
/// material's reflectiveness.
pub open spec fn reflected_colour_spec(
    objects: Seq<Object>,
    lights: Seq<Light>,
    background: Colour,
    m: Material,
    hit: Intersection,
    depth: nat,
) -> Colour
    decreases depth, 0int,
{
    if depth == 0 || m.reflect == 0 {
        black()
    } else {
        cscale(
            scene_colour_at(
                objects,
                lights,
                background,
                Ray { origin: hit.over_point, direction: hit.reflect },
                (depth - 1) as nat,
            ),
            m.reflect,
        )
    }
}

/// The refracted contribution: nothing at depth zero, on an opaque
/// material, or under total internal reflection; else the colour along the
/// Snell-bent ray scaled by the material's transparency.
pub open spec fn refracted_colour_spec(
    objects: Seq<Object>,
    lights: Seq<Light>,
    background: Colour,
    m: Material,
    hit: Intersection,
    depth: nat,
) -> Colour
    decreases depth, 0int,
{
    if m.transparency == 0 || depth == 0 {
        black()
    } else {
        let idx_ratio = fdiv(hit.exit_idx, hit.enter_idx);
        let cos_i = vdot(hit.eye, hit.normal);
        let sin2_t = fmul(fmul(idx_ratio, idx_ratio), fsub(FX_ONE, fmul(cos_i, cos_i)));
        if sin2_t > FX_ONE {
            black()
        } else {
            let cos_t = fsqrt(fsub(FX_ONE, sin2_t));
            let direction = vsub(
                vscale(hit.normal, fsub(fmul(idx_ratio, cos_i), cos_t)),
                vscale(hit.eye, idx_ratio),
            );
            cscale(
                scene_colour_at(
                    objects,
                    lights,
                    background,
                    Ray { origin: hit.under_point, direction },
                    (depth - 1) as nat,
                ),
                m.transparency,
            )
        }
    }
}

proof fn lemma_sorted_insert_len(s: Seq<Intersection>, x: Intersection)
    ensures
        sorted_insert(s, x).len() == s.len() + 1,
    decreases s.len(),
{
    if s.len() != 0 && !(x.t < s[0].t) {
        lemma_sorted_insert_len(s.subrange(1, s.len() as int), x);
    }
}

/// Sorting and stamping the hits loses none and invents none.
pub proof fn lemma_compute_len(s: Seq<Intersection>)
    ensures
        compute_intersections_spec(s).len() == s.len(),
    decreases s.len(),
{
    if s.len() == 0 {
    } else {
        lemma_compute_len(s.drop_last());
        lemma_sorted_insert_len(sort_by_t(s.drop_last()), s.last());
        assert(sort_by_t(s).len() == s.len());
    }
}

/// Whether any of the hits lies strictly closer than the given distance.
fn any_hit_closer(hits: &Vec<Intersection>, distance: i64) -> (r: bool)
    ensures
        r == exists|i: int| 0 <= i < hits@.len() && hits@[i].t < distance,
{
    let mut i: usize = 0;
    while i < hits.len()
        invariant
            0 <= i <= hits@.len(),
            forall|j: int| 0 <= j < i as int ==> !(hits@[j].t < distance),
        decreases hits@.len() - i,
    {
        if hits[i].t < distance {
            proof {
                assert(exists|j: int| 0 <= j < hits@.len() && hits@[j].t < distance) by {
                    assert(hits@[i as int].t < distance);
                }
            }
            return true;
        }
        i = i + 1;
    }
    false
}

impl Scene {
    /// Dense identifiers in scene order: the refraction bookkeeping relies
    /// on them.
    pub open spec fn wf(self) -> bool {
        &&& self.id_counter == self.objects@.len()
        &&& forall|i: int| 0 <= i < self.objects@.len() ==> self.objects@[i].id == i as usize
    }

    /// Gather the objects, assigning each its position as its identifier.
    pub fn new(objects: Vec<Object>, lights: Vec<Light>, bg: Colour) -> (s: Scene)
        ensures
            s.wf(),
            s.objects@.len() == objects@.len(),
            forall|i: int|
                0 <= i < objects@.len() ==> s.objects@[i] == (Object {
                    id: i as usize,
                    ..objects@[i]
                }),
            s.lights == lights,
            s.background == bg,
    {
        let mut renumbered: Vec<Object> = Vec::new();
        let mut i: usize = 0;
        while i < objects.len()
            invariant
                0 <= i <= objects@.len(),
                renumbered@.len() == i as int,
                forall|j: int|
                    0 <= j < i as int ==> renumbered@[j] == (Object {
                        id: j as usize,
                        ..objects@[j]
                    }),
            decreases objects@.len() - i,
        {
            let mut o: Object = objects[i];
            o.set_id(i);
            renumbered.push(o);
            i = i + 1;
        }
        Scene { objects: renumbered, lights, background: bg, id_counter: i }
    }

    /// Append an object, stamping it with the next identifier.
    pub fn push(&mut self, object: Object)
        requires
            old(self).wf(),
        ensures
            final(self).wf(),
            final(self).objects@ == old(self).objects@.push(
                Object { id: old(self).id_counter, ..object },
            ),
            final(self).lights == old(self).lights,
            final(self).background == old(self).background,
    {
        let mut o: Object = object;
        o.set_id(self.id_counter);
        self.objects.push(o);
        self.id_counter = self.objects.len();
    }

    /// Remove and hand back the most recently added object.
    pub fn pop(&mut self) -> (o: Option<Object>)
        ensures
            old(self).objects@.len() == 0 ==> o is None && final(self).objects@ == old(
                self,
            ).objects@,
            old(self).objects@.len() > 0 ==> o == Some(old(self).objects@.last())
                && final(self).objects@ == old(self).objects@.drop_last(),
            final(self).lights == old(self).lights,
            final(self).background == old(self).background,
            final(self).id_counter == old(self).id_counter,
    {
        self.objects.pop()
    }

    /// Every hit of the ray against every object, unsorted.
    pub fn hit(&self, ray: &Ray, t_min: i64, t_max: i64) -> (v: Vec<Intersection>)
        ensures
            v@ == scene_hits(self.objects@, *ray, t_min, t_max),
    {
        let mut v: Vec<Intersection> = Vec::new();
        let mut k: usize = 0;
        while k < self.objects.len()
            invariant
                0 <= k <= self.objects@.len(),
                v@ == scene_hits(self.objects@.take(k as int), *ray, t_min, t_max),
            decreases self.objects@.len() - k,
        {
            proof {
                assert(self.objects@.take(k as int + 1).drop_last() =~= self.objects@.take(
                    k as int,
                ));
                assert(self.objects@.take(k as int + 1).last() == self.objects@[k as int]);
            }
            let mut hits: Vec<Intersection> = self.objects[k].hit(ray, t_min, t_max);
            v.append(&mut hits);
            k = k + 1;
        }
        proof {
            assert(self.objects@.take(self.objects@.len() as int) =~= self.objects@);
        }
        v
    }

    /// Whether the first light is blocked from the point.
    pub fn is_shadowed(&self, point: &Point3) -> (r: bool)
        requires
            self.lights@.len() > 0,
        ensures
            r == is_shadowed_spec(self.objects@, self.lights@, *point),
    {
        let shadow_vec: Vec3 = self.lights[0].position.sub(point);
        let distance: i64 = shadow_vec.length();
        let direction: Vec3 = shadow_vec.normalise();

        let shadow_ray: Ray = Ray::new(*point, direction);
        let hits: Vec<Intersection> = self.hit(&shadow_ray, SHADOW_T_MIN, i64::MAX);
        any_hit_closer(&hits, distance)
    }

    /// The colour seen along a ray, recursing into reflection and
    /// refraction until the depth budget runs out.
    #[verifier::rlimit(100)]
    pub fn colour_at(&self, ray: &Ray, depth: usize) -> (c: Colour)
        requires
            self.lights@.len() > 0,
        ensures
            c == scene_colour_at(self.objects@, self.lights@, self.background, *ray, depth as nat),
        decreases depth, 1int,
    {
        let mut hits: Vec<Intersection> = self.hit(ray, SHADE_T_MIN, i64::MAX);
        if hits.is_empty() {
            return self.background;
        }
        proof {
            lemma_compute_len(hits@);
        }
        compute_intersections(&mut hits);
        let hit: Intersection = hits[0];

        let in_shadow: bool = self.is_shadowed(&hit.over_point);
        let surface_colour: Colour = hit.material.light(&self.lights[0], &hit, in_shadow);
        let reflected_colour: Colour = self.reflected_colour_at(&hit.material, &hit, depth);
        let refracted_colour: Colour = self.refracted_colour_at(&hit.material, &hit, depth);
        if hit.material.reflect > 0 && hit.material.transparency > 0 {
            let reflectance: i64 = hit.schlick();
            surface_colour.add(&reflected_colour.mul_scalar(reflectance)).add(
                &refracted_colour.mul_scalar(fx_sub(FX_ONE, reflectance)),
            )
        } else {
            surface_colour.add(&reflected_colour).add(&refracted_colour)
        }
    }

    /// The reflected contribution at a hit.
    #[verifier::rlimit(100)]
    pub fn reflected_colour_at(&self, material: &Material, hit: &Intersection, depth: usize) -> (c:
        Colour)
        requires
            self.lights@.len() > 0,
        ensures
            c == reflected_colour_spec(
                self.objects@,
                self.lights@,
                self.background,
                *material,
                *hit,
                depth as nat,
            ),
        decreases depth, 0int,
    {
        if depth == 0 || material.reflect == 0 {
            return Colour::black();
        }
        let reflected: Ray = Ray::new(hit.over_point, hit.reflect);
        self.colour_at(&reflected, depth - 1).mul_scalar(material.reflect)
    }

    /// The refracted contribution at a hit.
    #[verifier::rlimit(100)]
    pub fn refracted_colour_at(&self, material: &Material, hit: &Intersection, depth: usize) -> (c:
        Colour)
        requires
            self.lights@.len() > 0,
        ensures
            c == refracted_colour_spec(
                self.objects@,
                self.lights@,
                self.background,
                *material,
                *hit,
                depth as nat,
            ),
        decreases depth, 0int,
    {
        // Material is opaque, or the bounce budget is spent.
        if material.transparency == 0 || depth == 0 {
            return Colour::black();
        }
        let idx_ratio: i64 = fx_div_total(hit.exit_idx, hit.enter_idx);
        let cos_i: i64 = hit.eye.dot(&hit.normal);
        let sin2_t: i64 = fx_mul(fx_mul(idx_ratio, idx_ratio), fx_sub(FX_ONE, fx_mul(cos_i, cos_i)));

        // Total internal reflection.
        if sin2_t > FX_ONE {
            return Colour::black();
        }
        let cos_t: i64 = fx_sqrt(fx_sub(FX_ONE, sin2_t));
        let direction: Vec3 = hit.normal.mul_scalar(fx_sub(fx_mul(idx_ratio, cos_i), cos_t)).sub(
            &hit.eye.mul_scalar(idx_ratio),
        );
        let refracted: Ray = Ray::new(hit.under_point, direction);

        self.colour_at(&refracted, depth - 1).mul_scalar(material.transparency)
    }
}

impl Default for Scene {
    /// An empty scene over a black background.
    fn default() -> (s: Scene)
        ensures
            s.objects@.len() == 0,
            s.lights@.len() == 0,
            s.background == black(),
            s.id_counter == 0,
            s.wf(),
    {
        Scene { objects: Vec::new(), lights: Vec::new(), background: Colour::black(), id_counter: 0 }
    }
}


/// A fully opaque material yields no refracted contribution, whatever the
/// ray, the hit or the remaining depth.
pub proof fn lemma_opaque_refracts_nothing(
    objects: Seq<Object>,
    lights: Seq<Light>,
    background: Colour,
    m: Material,
    hit: Intersection,
    depth: nat,
)
    requires
        m.transparency == 0,
    ensures
        refracted_colour_spec(objects, lights, background, m, hit, depth) == black(),
{
}

/// With the bounce budget spent, both the reflected and the refracted
/// contributions vanish, whatever the material.
pub proof fn lemma_depth_zero_contributes_nothing(
    objects: Seq<Object>,
    lights: Seq<Light>,
    background: Colour,
    m: Material,
    hit: Intersection,
)
    ensures
        reflected_colour_spec(objects, lights, background, m, hit, 0) == black(),
        refracted_colour_spec(objects, lights, background, m, hit, 0) == black(),
{
}

} // verus!

