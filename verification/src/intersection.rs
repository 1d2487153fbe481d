//! Intersection records and the refractive-index bookkeeping that runs over
//! all hits of one ray.

use vstd::prelude::*;

use crate::colour::Colour;
use crate::fixed::{fadd, fdiv, fmul, fpow, fsqrt, fsub, fx_add, fx_div_total, fx_mul, fx_pow,
    fx_sqrt, fx_sub, FX_ONE};
use crate::material::Material;
use crate::vec3::{vdot, Point3, Vec3};

verus! {

/// Everything shading needs to know about one ray-object hit.
#[derive(Clone, Copy, Debug, PartialEq, Eq, Structural)]
pub struct Intersection {
    /// Position of this record among all hits of the ray, in ascending order
    /// of `t`; filled in by `compute_intersections`.
    pub id: usize,
    /// The identifier of the object that was hit.
    pub obj_id: usize,
    /// The point at which the ray hit the object.
    pub point: Point3,
    /// The surface normal at the point of incidence, facing the ray.
    pub normal: Vec3,
    /// The hit object's material.
    pub material: Material,
    /// Ray parameter of the hit.
    pub t: i64,
    /// True if the ray hit the front of the object.
    pub front_face: bool,
    /// Direction back toward the ray origin.
    pub eye: Vec3,
    /// Reflection of the ray direction about the normal.
    pub reflect: Vec3,
    /// Resolved surface colour (material or pattern).
    pub colour: Colour,
    /// Point slightly above the surface, a safe shadow/reflection origin.
    pub over_point: Point3,
    /// Point slightly below the surface, a safe refraction origin.
    pub under_point: Point3,
    /// Refractive index of the medium the ray leaves at this boundary.
    pub exit_idx: i64,
    /// Refractive index of the medium the ray enters at this boundary.
    pub enter_idx: i64,
}

/// Schlick's approximation of the Fresnel reflectance at this hit: one under
/// total internal reflection, else `r0 + (1 - r0)(1 - cos)^5`.
pub open spec fn schlick_spec(hit: Intersection) -> i64 {
    let cos0 = vdot(hit.eye, hit.normal);
    let n = fdiv(hit.exit_idx, hit.enter_idx);
    let sin2_t = fmul(fmul(n, n), fsub(FX_ONE, fmul(cos0, cos0)));
    if hit.exit_idx > hit.enter_idx && sin2_t > FX_ONE {
        FX_ONE as i64
    } else {
        let cos = if hit.exit_idx > hit.enter_idx {
            fsqrt(fsub(FX_ONE, sin2_t))
        } else {
            cos0
        };
        let ratio = fdiv(
            fsub(hit.enter_idx, hit.exit_idx),
            fadd(hit.enter_idx, hit.exit_idx),
        );
        let r0 = fmul(ratio, ratio);
        fadd(r0, fmul(fsub(FX_ONE, r0), fpow(fsub(FX_ONE, cos), 5)))
    }
}

impl Intersection {
    /// Schlick's reflectance approximation at this hit.
    pub fn schlick(&self) -> (r: i64)
        ensures
            r == schlick_spec(*self),
    {
        let cos0: i64 = self.eye.dot(&self.normal);
        let mut cos: i64 = cos0;
        if self.exit_idx > self.enter_idx {
            let n: i64 = fx_div_total(self.exit_idx, self.enter_idx);
            let sin2_t: i64 = fx_mul(fx_mul(n, n), fx_sub(FX_ONE, fx_mul(cos0, cos0)));
            if sin2_t > FX_ONE {
                return FX_ONE;
            }
            cos = fx_sqrt(fx_sub(FX_ONE, sin2_t));
        }
        let ratio: i64 = fx_div_total(
            fx_sub(self.enter_idx, self.exit_idx),
            fx_add(self.enter_idx, self.exit_idx),
        );
        let r0: i64 = fx_mul(ratio, ratio);
        fx_add(r0, fx_mul(fx_sub(FX_ONE, r0), fx_pow(fx_sub(FX_ONE, cos), 5)))
    }
}


// ----------------------------------------------------- sorting by distance

/// Insert a record into a run already sorted by `t`, after any equal keys.
pub open spec fn sorted_insert(s: Seq<Intersection>, x: Intersection) -> Seq<Intersection>
    decreases s.len(),
{
    if s.len() == 0 {
        seq![x]
    } else if x.t < s[0].t {
        seq![x] + s
    } else {
        seq![s[0]] + sorted_insert(s.subrange(1, s.len() as int), x)
    }
}

/// Stable insertion sort of the records by ascending `t`.
pub open spec fn sort_by_t(s: Seq<Intersection>) -> Seq<Intersection>
    decreases s.len(),
{
    if s.len() == 0 {
        Seq::<Intersection>::empty()
    } else {
        sorted_insert(sort_by_t(s.drop_last()), s.last())
    }
}

proof fn lemma_sorted_insert_at(s: Seq<Intersection>, x: Intersection, i: int)
    requires
        0 <= i <= s.len(),
        forall|j: int| 0 <= j < i ==> s[j].t <= x.t,
        i < s.len() ==> x.t < s[i].t,
    ensures
        sorted_insert(s, x) == s.insert(i, x),
    decreases i,
{
    if s.len() == 0 {
        assert(s.insert(0, x) =~= seq![x]);
    } else if i == 0 {
        assert(s.insert(0, x) =~= seq![x] + s);
    } else {
        let rest = s.subrange(1, s.len() as int);
        lemma_sorted_insert_at(rest, x, i - 1);
        assert(seq![s[0]] + rest.insert(i - 1, x) =~= s.insert(i, x));
    }
}

/// Insert into a vector kept sorted by `t`.
fn insert_by_t(v: &mut Vec<Intersection>, x: Intersection)
    ensures
        final(v)@ == sorted_insert(old(v)@, x),
{
    let mut i: usize = 0;
    while i < v.len() && v[i].t <= x.t
        invariant
            0 <= i <= v@.len(),
            v@ == old(v)@,
            forall|j: int| 0 <= j < i as int ==> v@[j].t <= x.t,
        decreases v@.len() - i,
    {
        i = i + 1;
    }
    proof {
        lemma_sorted_insert_at(v@, x, i as int);
    }
    v.insert(i, x);
}

/// The records sorted by ascending `t`, equal keys keeping their order.
pub fn sort_intersections(src: &Vec<Intersection>) -> (out: Vec<Intersection>)
    ensures
        out@ == sort_by_t(src@),
{
    let mut out: Vec<Intersection> = Vec::new();
    let mut k: usize = 0;
    while k < src.len()
        invariant
            0 <= k <= src@.len(),
            out@ == sort_by_t(src@.take(k as int)),
        decreases src@.len() - k,
    {
        proof {
            assert(src@.take(k as int + 1).drop_last() =~= src@.take(k as int));
            assert(src@.take(k as int + 1).last() == src@[k as int]);
        }
        insert_by_t(&mut out, src[k]);
        k = k + 1;
    }
    proof {
        assert(src@.take(src@.len() as int) =~= src@);
    }
    out
}

// ------------------------------------------- the refractive-index stack

/// One step of the containers walk: an id already inside leaves (the ray
/// exits that object), a new id enters.
/// The predicate that keeps every id but the given one.
pub open spec fn keeps(id: usize) -> spec_fn(usize) -> bool {
    |e: usize| e != id
}

pub open spec fn toggle(c: Seq<usize>, id: usize) -> Seq<usize> {
    if c.contains(id) {
        c.filter(keeps(id))
    } else {
        c.push(id)
    }
}

/// The objects the ray is inside just before the `k`-th hit, as a stack of
/// ids: the walk folds `toggle` over the earlier hits.
pub open spec fn containers_before(s: Seq<Intersection>, k: int) -> Seq<usize>
    decreases k,
{
    if k <= 0 {
        Seq::<usize>::empty()
    } else {
        toggle(containers_before(s, k - 1), s[k - 1].obj_id)
    }
}

/// The refractive index of the object with the given id, read off the hits
/// (one is vacuum when no hit names the id).
pub open spec fn refr_of(s: Seq<Intersection>, id: usize) -> i64
    decreases s.len(),
{
    if s.len() == 0 {
        FX_ONE as i64
    } else if s.last().obj_id == id {
        s.last().material.refractive_index
    } else {
        refr_of(s.drop_last(), id)
    }
}

/// The index of the medium the ray leaves at hit `k`: the top of the stack
/// before the hit, or vacuum.
pub open spec fn exit_index_at(s: Seq<Intersection>, k: int) -> i64 {
    let c = containers_before(s, k);
    if c.len() == 0 {
        FX_ONE as i64
    } else {
        refr_of(s, c.last())
    }
}

/// The index of the medium the ray enters at hit `k`: the top of the stack
/// after the hit, or vacuum.
pub open spec fn enter_index_at(s: Seq<Intersection>, k: int) -> i64 {
    let c = containers_before(s, k + 1);
    if c.len() == 0 {
        FX_ONE as i64
    } else {
        refr_of(s, c.last())
    }
}

/// A sorted run of hits with positions and boundary indices stamped on.
pub open spec fn with_refraction(s: Seq<Intersection>) -> Seq<Intersection> {
    Seq::new(
        s.len(),
        |k: int| Intersection {
            id: k as usize,
            exit_idx: exit_index_at(s, k),
            enter_idx: enter_index_at(s, k),
            ..s[k]
        },
    )
}

/// The whole pass over one ray's hits: sort ascending by `t`, then stamp
/// each hit with its position and the indices of the media it crosses.
pub open spec fn compute_intersections_spec(s: Seq<Intersection>) -> Seq<Intersection> {
    with_refraction(sort_by_t(s))
}

fn toggle_container(c: &mut Vec<usize>, id: usize)
    ensures
        final(c)@ == toggle(old(c)@, id),
{
    let mut found: bool = false;
    let mut i: usize = 0;
    while i < c.len()
        invariant
            0 <= i <= c@.len(),
            c@ == old(c)@,
            found == exists|j: int| 0 <= j < i as int && c@[j] == id,
        decreases c@.len() - i,
    {
        if c[i] == id {
            found = true;
        }
        i = i + 1;
    }
    proof {
        assert(found == c@.contains(id)) by {
            if c@.contains(id) {
                let w = choose|j: int| 0 <= j < c@.len() && c@[j] == id;
                assert(0 <= w < c@.len() && c@[w] == id);
            }
        }
    }
    if !found {
        c.push(id);
    } else {
        let mut out: Vec<usize> = Vec::new();
        let mut k: usize = 0;
        while k < c.len()
            invariant
                0 <= k <= c@.len(),
                c@ == old(c)@,
                out@ == c@.take(k as int).filter(keeps(id)),
            decreases c@.len() - k,
        {
            proof {
                assert(c@.take(k as int + 1) =~= c@.take(k as int).push(c@[k as int]));
                c@.take(k as int).lemma_filter_push(c@[k as int], keeps(id));
                assert(keeps(id)(c@[k as int]) == (c@[k as int] != id));
            }
            if c[k] != id {
                out.push(c[k]);
            }
            k = k + 1;
        }
        proof {
            assert(c@.take(c@.len() as int) =~= c@);
        }
        *c = out;
    }
}

/// Look up the refractive index recorded for an object id among the hits.
fn refr_lookup(hits: &Vec<Intersection>, id: usize) -> (r: i64)
    ensures
        r == refr_of(hits@, id),
{
    let mut j: usize = hits.len();
    proof {
        assert(hits@.take(hits@.len() as int) =~= hits@);
    }
    while j > 0
        invariant
            0 <= j <= hits@.len(),
            refr_of(hits@, id) == refr_of(hits@.take(j as int), id),
        decreases j,
    {
        proof {
            assert(hits@.take(j as int).drop_last() =~= hits@.take(j as int - 1));
            assert(hits@.take(j as int).last() == hits@[j as int - 1]);
        }
        j = j - 1;
        if hits[j].obj_id == id {
            return hits[j].material.refractive_index;
        }
    }
    FX_ONE
}

/// Sort one ray's hits by distance and run the refractive-index stack over
/// them, stamping every record with the indices of the media its boundary
/// separates.
pub fn compute_intersections(hits: &mut Vec<Intersection>)
    ensures
        final(hits)@ == compute_intersections_spec(old(hits)@),
{
    let sorted: Vec<Intersection> = sort_intersections(hits);
    let mut out: Vec<Intersection> = Vec::new();
    let mut k: usize = 0;
    while k < sorted.len()
        invariant
            0 <= k <= sorted@.len(),
            sorted@ == sort_by_t(old(hits)@),
            out@.len() == k as int,
            forall|j: int|
                0 <= j < k as int ==> out@[j] == (Intersection {
                    id: j as usize,
                    exit_idx: exit_index_at(sorted@, j),
                    enter_idx: enter_index_at(sorted@, j),
                    ..sorted@[j]
                }),
        decreases sorted@.len() - k,
    {
        let mut containers: Vec<usize> = Vec::new();
        let mut i: usize = 0;
        while i < k
            invariant
                0 <= i <= k,
                k < sorted@.len(),
                containers@ == containers_before(sorted@, i as int),
            decreases k - i,
        {
            toggle_container(&mut containers, sorted[i].obj_id);
            i = i + 1;
        }
        let exit: i64 = if containers.len() == 0 {
            FX_ONE
        } else {
            refr_lookup(&sorted, containers[containers.len() - 1])
        };
        toggle_container(&mut containers, sorted[k].obj_id);
        let enter: i64 = if containers.len() == 0 {
            FX_ONE
        } else {
            refr_lookup(&sorted, containers[containers.len() - 1])
        };
        let mut h: Intersection = sorted[k];
        h.id = k;
        h.exit_idx = exit;
        h.enter_idx = enter;
        out.push(h);
        k = k + 1;
    }
    proof {
        assert(out@ =~= with_refraction(sorted@));
    }
    *hits = out;
}

} // verus!

