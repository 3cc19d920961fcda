//! Precomputed shading inputs for one hit, and the Schlick reflectance
//! approximation.

use vstd::prelude::*;

use crate::fixed::EPSILON;
use crate::fixed::SCALE;
use crate::fixed::fx_add;
use crate::fixed::fx_div;
use crate::fixed::fx_mul;
use crate::fixed::fx_powi;
use crate::fixed::fx_sqrt;
use crate::fixed::fx_sub;
use crate::fixed::spec_add;
use crate::fixed::spec_div;
use crate::fixed::spec_mul;
use crate::fixed::spec_powi;
use crate::fixed::spec_sqrt;
use crate::fixed::spec_sub;
use crate::intersection::Intersection;
use crate::point::Point;
use crate::point::spec_point_add_vec;
use crate::point::spec_point_sub_vec;
use crate::ray::Ray;
use crate::ray::spec_position;
use crate::vector::Vector;
use crate::vector::spec_dot;
use crate::vector::spec_reflect;
use crate::vector::spec_vec_neg;
use crate::vector::spec_vec_scale;
use crate::world::World;
use crate::world::spec_invertible_ok;
use crate::world::spec_materials_ok;
use crate::world::spec_normal_at;
use crate::world::spec_world_wf;

verus! {

/// Everything shading needs about one hit: the hit itself, the surface
/// point, the viewing and surface vectors, the self-intersection guards
/// and the refractive indices on both sides of the surface.
#[derive(Clone, Copy, Debug, PartialEq, Eq, Structural)]
pub struct Computation {
    /// Distance from the ray origin to the hit.
    pub t: i64,
    /// Id of the intersected shape in its world.
    pub object: usize,
    /// Point in world space where the hit occurred.
    pub point: Point,
    /// From the hit back toward the eye.
    pub eyev: Vector,
    /// Surface normal at the hit, flipped toward the eye when the hit
    /// came from inside the shape.
    pub normalv: Vector,
    /// Whether the hit came from inside the shape.
    pub inside: bool,
    /// The hit point nudged along the normal, for shadow and reflection
    /// rays.
    pub over_point: Point,
    /// The hit point nudged against the normal, for refraction rays.
    pub under_point: Point,
    /// The ray direction reflected about the normal.
    pub reflectv: Vector,
    /// Refractive index of the medium being exited.
    pub n1: i64,
    /// Refractive index of the medium being entered.
    pub n2: i64,
}

/// Two intersections stand for the same crossing when their distances
/// agree within epsilon and they name the same shape.
pub open spec fn spec_ieq(a: Intersection, b: Intersection) -> bool {
    crate::spec_float_eq(a.t as int, b.t as int) && a.object == b.object
}

/// A containment list with every occurrence of one id removed.
pub open spec fn seq_remove_id(s: Seq<usize>, id: usize) -> Seq<usize>
    decreases s.len(),
{
    if s.len() == 0 {
        Seq::empty()
    } else if s[0] == id {
        seq_remove_id(s.drop_first(), id)
    } else {
        seq![s[0]] + seq_remove_id(s.drop_first(), id)
    }
}

/// Removing an id distributes over appending one element.
pub proof fn lemma_remove_id_push(s: Seq<usize>, x: usize, id: usize)
    ensures
        seq_remove_id(s.push(x), id) == if x == id {
            seq_remove_id(s, id)
        } else {
            seq_remove_id(s, id).push(x)
        },
    decreases s.len(),
{
    let p = s.push(x);
    if s.len() == 0 {
        assert(p.drop_first() =~= Seq::<usize>::empty());
        assert(s =~= Seq::<usize>::empty());
        assert(seq_remove_id(Seq::<usize>::empty(), id) =~= Seq::<usize>::empty());
        if x == id {
            assert(seq_remove_id(p, id) =~= seq_remove_id(s, id));
        } else {
            assert(seq_remove_id(p, id) =~= seq![x]);
            assert(seq_remove_id(s, id).push(x) =~= seq![x]);
        }
    } else {
        assert(p.drop_first() =~= s.drop_first().push(x));
        lemma_remove_id_push(s.drop_first(), x, id);
        if s[0] == id {
            assert(seq_remove_id(p, id) == seq_remove_id(s.drop_first().push(x), id));
        } else {
            if x == id {
                assert(seq_remove_id(p, id) =~= seq_remove_id(s, id));
            } else {
                assert(seq_remove_id(p, id) =~= seq_remove_id(s, id).push(x));
            }
        }
    }
}

/// Removing an id keeps the remaining entries within any bound they all
/// satisfied.
pub proof fn lemma_remove_id_bounds(s: Seq<usize>, id: usize, bound: int)
    requires
        forall|i: int| 0 <= i < s.len() ==> (#[trigger] s[i]) < bound,
    ensures
        forall|i: int|
            0 <= i < seq_remove_id(s, id).len() ==> (#[trigger] seq_remove_id(s, id)[i]) < bound,
    decreases s.len(),
{
    if s.len() > 0 {
        assert(forall|i: int|
            0 <= i < s.drop_first().len() ==> (#[trigger] s.drop_first()[i]) < bound);
        lemma_remove_id_bounds(s.drop_first(), id, bound);
        let inner = seq_remove_id(s.drop_first(), id);
        let r = seq_remove_id(s, id);
        if s[0] == id {
            assert(r == inner);
        } else {
            assert(r == seq![s[0]] + inner);
            assert forall|i: int| 0 <= i < r.len() implies (#[trigger] r[i]) < bound by {
                if i == 0 {
                    assert(r[0] == s[0]);
                } else {
                    assert(r[i] == inner[i - 1]);
                }
            }
        }
    }
}

/// The refractive indices on both sides of the target crossing, found by
/// walking the batch in order while maintaining the list of shapes the
/// ray is currently inside: on entering a shape it joins the list, on
/// leaving it drops out.  The index before the target's own update is the
/// exited medium, the index after it is the entered one; an empty list
/// means vacuum.  A target that never occurs yields zero for both.
pub open spec fn spec_refraction_indices(
    w: World,
    xs: Seq<Intersection>,
    target: Intersection,
    k: int,
    container: Seq<usize>,
) -> (int, int)
    decreases xs.len() - k,
{
    if k < 0 || k >= xs.len() {
        (0, 0)
    } else {
        let i = xs[k];
        let n1v: int = if container.len() == 0 {
            SCALE as int
        } else {
            w.objects[container.last() as int].material.refractive_index as int
        };
        let container2 = if container.contains(i.object) {
            seq_remove_id(container, i.object)
        } else {
            container.push(i.object)
        };
        if spec_ieq(i, target) {
            let n2v: int = if container2.len() == 0 {
                SCALE as int
            } else {
                w.objects[container2.last() as int].material.refractive_index as int
            };
            (n1v, n2v)
        } else {
            spec_refraction_indices(w, xs, target, k + 1, container2)
        }
    }
}

/// When the target occurs in the batch and every material's refractive
/// index is positive, both reported indices are positive.
pub proof fn lemma_refraction_positive(
    w: World,
    xs: Seq<Intersection>,
    target: Intersection,
    k: int,
    container: Seq<usize>,
)
    requires
        spec_materials_ok(w),
        0 <= k <= xs.len(),
        forall|j: int| 0 <= j < xs.len() ==> (#[trigger] xs[j]).object < w.objects.len(),
        forall|i: int| 0 <= i < container.len() ==> (#[trigger] container[i]) < w.objects.len(),
        exists|j: int| k <= j < xs.len() && spec_ieq(#[trigger] xs[j], target),
    ensures
        spec_refraction_indices(w, xs, target, k, container).0 > 0,
        spec_refraction_indices(w, xs, target, k, container).1 > 0,
    decreases xs.len() - k,
{
    let i = xs[k];
    let container2 = if container.contains(i.object) {
        seq_remove_id(container, i.object)
    } else {
        container.push(i.object)
    };
    assert(forall|q: int|
        0 <= q < container2.len() ==> (#[trigger] container2[q]) < w.objects.len()) by {
        if container.contains(i.object) {
            lemma_remove_id_bounds(container, i.object, w.objects.len() as int);
        } else {
            assert(forall|q: int|
                0 <= q < container.len() ==> container.push(i.object)[q] == container[q]);
        }
    }
    if spec_ieq(i, target) {
    } else {
        assert(exists|j: int| k + 1 <= j < xs.len() && spec_ieq(#[trigger] xs[j], target)) by {
            let j = choose|j: int| k <= j < xs.len() && spec_ieq(#[trigger] xs[j], target);
            assert(j != k);
            assert(k + 1 <= j < xs.len() && spec_ieq(xs[j], target));
        }
        lemma_refraction_positive(w, xs, target, k + 1, container2);
    }
}

/// The shading inputs for the target crossing of a ray, derived from the
/// hit point, the viewing direction, the surface normal resolved through
/// the world, and the containment walk over the whole batch.
#[verifier::opaque]
pub open spec fn spec_prepare_computations(
    w: World,
    x: Intersection,
    r: Ray,
    xs: Seq<Intersection>,
) -> Computation {
    let point = spec_position(r, x.t as int);
    let eyev = spec_vec_neg(r.direction);
    let raw_normal = spec_normal_at(w, x.object as int, point);
    let inside = spec_dot(raw_normal, eyev) < 0;
    let normalv = if inside {
        spec_vec_neg(raw_normal)
    } else {
        raw_normal
    };
    let nudge = spec_vec_scale(normalv, EPSILON as int);
    let indices = spec_refraction_indices(w, xs, x, 0, Seq::empty());
    Computation {
        t: x.t,
        object: x.object,
        point,
        eyev,
        normalv,
        inside,
        over_point: spec_point_add_vec(point, nudge),
        under_point: spec_point_sub_vec(point, nudge),
        reflectv: spec_reflect(r.direction, normalv),
        n1: indices.0 as i64,
        n2: indices.1 as i64,
    }
}

/// The Schlick blend for a cosine: the base reflectance plus its
/// complement faded in by the fifth power of the cosine's complement.
pub open spec fn spec_schlick_blend(n1: int, n2: int, cos: int) -> int {
    let r0 = spec_mul(
        spec_div(spec_sub(n1, n2), spec_add(n1, n2)),
        spec_div(spec_sub(n1, n2), spec_add(n1, n2)),
    );
    spec_add(r0, spec_mul(spec_sub(SCALE as int, r0), spec_powi(spec_sub(SCALE as int, cos), 5)))
}

/// The Schlick approximation of Fresnel reflectance.  When light passes
/// into a thinner medium and the refracted angle would pass the horizon,
/// everything reflects: the reflectance is exactly one.
#[verifier::opaque]
pub open spec fn spec_schlick(c: Computation) -> int {
    let cos = spec_dot(c.eyev, c.normalv);
    if c.n1 > c.n2 {
        let n = spec_div(c.n1 as int, c.n2 as int);
        let sin2_t = spec_mul(spec_mul(n, n), spec_sub(SCALE as int, spec_mul(cos, cos)));
        if sin2_t > SCALE as int {
            SCALE as int
        } else {
            spec_schlick_blend(c.n1 as int, c.n2 as int, spec_sqrt(spec_sub(SCALE as int, sin2_t)))
        }
    } else {
        spec_schlick_blend(c.n1 as int, c.n2 as int, cos)
    }
}

/// Under total internal reflection the Schlick reflectance is exactly
/// one: when light would pass into a thinner medium at too shallow an
/// angle, everything reflects.
pub proof fn lemma_schlick_total_internal_reflection(c: Computation)
    requires
        c.n1 > c.n2,
        ({
            let cos = spec_dot(c.eyev, c.normalv);
            let n = spec_div(c.n1 as int, c.n2 as int);
            spec_mul(spec_mul(n, n), spec_sub(SCALE as int, spec_mul(cos, cos))) > SCALE as int
        }),
    ensures
        spec_schlick(c) == SCALE as int,
{
    reveal(spec_schlick);
}

impl Computation {
    /// The Schlick approximation of Fresnel reflectance for this hit.
    /// Total internal reflection reports a reflectance of exactly one.
    pub fn schlick(&self) -> (r: i64)
        requires
            self.n1 > 0,
            self.n2 > 0,
        ensures
            r == spec_schlick(*self),
    {
        proof {
            reveal(spec_schlick);
        }
        let cos: i64 = self.eyev.dot(self.normalv);
        if self.n1 > self.n2 {
            let n: i64 = fx_div(self.n1, self.n2);
            let sin2_t: i64 = fx_mul(fx_mul(n, n), fx_sub(SCALE, fx_mul(cos, cos)));
            if sin2_t > SCALE {
                SCALE
            } else {
                let cos_t: i64 = fx_sqrt(fx_sub(SCALE, sin2_t));
                self.schlick_blend(cos_t)
            }
        } else {
            self.schlick_blend(cos)
        }
    }

    /// The Schlick blend for a given cosine.
    fn schlick_blend(&self, cos: i64) -> (r: i64)
        requires
            self.n1 > 0,
            self.n2 > 0,
        ensures
            r == spec_schlick_blend(self.n1 as int, self.n2 as int, cos as int),
    {
        let denom: i64 = fx_add(self.n1, self.n2);
        proof {
            assert(denom > 0);
        }
        let d: i64 = fx_div(fx_sub(self.n1, self.n2), denom);
        let r0: i64 = fx_mul(d, d);
        fx_add(r0, fx_mul(fx_sub(SCALE, r0), fx_powi(fx_sub(SCALE, cos), 5)))
    }
}

impl Intersection {
    /// Precompute the shading inputs for this crossing of a ray, walking
    /// the whole batch of crossings to find the refractive indices on
    /// both sides of the surface.
    pub fn prepare_computations(&self, r: &Ray, xs: &Vec<Intersection>, w: &World) -> (c:
        Computation)
        requires
            spec_world_wf(*w),
            spec_invertible_ok(*w),
            self.object < w.objects.len(),
            !(w.objects[self.object as int].kind is Group),
            forall|j: int| 0 <= j < xs@.len() ==> (#[trigger] xs@[j]).object < w.objects.len(),
        ensures
            c == spec_prepare_computations(*w, *self, *r, xs@),
            c.object == self.object,
            c.n1 as int == spec_refraction_indices(*w, xs@, *self, 0, Seq::empty()).0,
            c.n2 as int == spec_refraction_indices(*w, xs@, *self, 0, Seq::empty()).1,
    {
        proof {
            reveal(spec_prepare_computations);
        }
        let point: Point = r.position(self.t);
        let eyev: Vector = r.direction.neg();
        let raw_normal: Vector = w.normal_at(self.object, point);
        let inside: bool = raw_normal.dot(eyev) < 0;
        let normalv: Vector = if inside {
            raw_normal.neg()
        } else {
            raw_normal
        };
        let nudge: Vector = normalv.scale(EPSILON);
        let over_point: Point = point.add_vec(nudge);
        let under_point: Point = point.sub_vec(nudge);
        let reflectv: Vector = r.direction.reflect(normalv);
        let indices: (i64, i64) = refraction_indices(w, xs, *self);
        Computation {
            t: self.t,
            object: self.object,
            point,
            eyev,
            normalv,
            inside,
            over_point,
            under_point,
            reflectv,
            n1: indices.0,
            n2: indices.1,
        }
    }
}

/// Walk a batch of crossings in order, maintaining the list of shapes the
/// ray is currently inside, and report the refractive indices on both
/// sides of the target crossing.
fn refraction_indices(w: &World, xs: &Vec<Intersection>, target: Intersection) -> (r: (i64, i64))
    requires
        forall|j: int| 0 <= j < xs@.len() ==> (#[trigger] xs@[j]).object < w.objects.len(),
    ensures
        r.0 == spec_refraction_indices(*w, xs@, target, 0, Seq::empty()).0,
        r.1 == spec_refraction_indices(*w, xs@, target, 0, Seq::empty()).1,
{
    let mut container: Vec<usize> = Vec::new();
    let mut n1: i64 = 0;
    let mut n2: i64 = 0;
    let mut found: bool = false;
    let mut k: usize = 0;
    while k < xs.len() && !found
        invariant
            k <= xs@.len(),
            forall|j: int| 0 <= j < xs@.len() ==> (#[trigger] xs@[j]).object < w.objects.len(),
            forall|i: int| 0 <= i < container@.len() ==> (#[trigger] container@[i])
                < w.objects.len(),
            !found ==> spec_refraction_indices(*w, xs@, target, 0, Seq::empty())
                == spec_refraction_indices(*w, xs@, target, k as int, container@),
            found ==> (n1 as int, n2 as int) == spec_refraction_indices(
                *w,
                xs@,
                target,
                0,
                Seq::empty(),
            ),
            !found ==> n1 == 0 && n2 == 0,
        decreases xs@.len() - k,
    {
        let i: Intersection = xs[k];
        let matches_target: bool = crate::float_eq(i.t, target.t) && i.object == target.object;
        if matches_target {
            if container.len() == 0 {
                n1 = SCALE;
            } else {
                n1 = w.objects[container[container.len() - 1]].material.refractive_index;
            }
        }
        let ghost oldc: Seq<usize> = container@;
        if vec_contains_id(&container, i.object) {
            container = vec_remove_id(container, i.object);
            proof {
                lemma_remove_id_bounds(oldc, i.object, w.objects.len() as int);
            }
        } else {
            container.push(i.object);
        }
        if matches_target {
            if container.len() == 0 {
                n2 = SCALE;
            } else {
                n2 = w.objects[container[container.len() - 1]].material.refractive_index;
            }
            found = true;
        }
        k = k + 1;
    }
    (n1, n2)
}

/// Whether a containment list holds an id.
fn vec_contains_id(v: &Vec<usize>, id: usize) -> (r: bool)
    ensures
        r == v@.contains(id),
{
    let mut i: usize = 0;
    while i < v.len()
        invariant
            i <= v@.len(),
            forall|j: int| 0 <= j < i ==> (#[trigger] v@[j]) != id,
        decreases v@.len() - i,
    {
        if v[i] == id {
            return true;
        }
        i = i + 1;
    }
    false
}

/// A containment list with every occurrence of one id removed.
fn vec_remove_id(v: Vec<usize>, id: usize) -> (r: Vec<usize>)
    ensures
        r@ == seq_remove_id(v@, id),
{
    let mut out: Vec<usize> = Vec::new();
    let mut i: usize = 0;
    proof {
        assert(v@.take(0) =~= Seq::<usize>::empty());
        assert(out@ =~= seq_remove_id(v@.take(0), id));
    }
    while i < v.len()
        invariant
            i <= v@.len(),
            out@ == seq_remove_id(v@.take(i as int), id),
        decreases v@.len() - i,
    {
        proof {
            assert(v@.take(i as int + 1) =~= v@.take(i as int).push(v@[i as int]));
            lemma_remove_id_push(v@.take(i as int), v@[i as int], id);
        }
        if v[i] != id {
            out.push(v[i]);
        }
        i = i + 1;
    }
    proof {
        assert(v@.take(v@.len() as int) =~= v@);
    }
    out
}

} // verus!
