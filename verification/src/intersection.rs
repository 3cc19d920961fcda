//! Per-ray hit records and the hit-selection rule.

use vstd::prelude::*;

verus! {

/// One crossing of a ray and a shape: the distance `t` along the ray and
/// the identity of the shape that was crossed.  Shape identity is the
/// shape's stable id in its world, never structural equality.
#[derive(Clone, Copy, Debug, PartialEq, Eq, Structural)]
pub struct Intersection {
    /// Distance along the ray, in fixed-point units of the ray direction.
    pub t: i64,
    /// Id of the intersected shape in its world.
    pub object: usize,
}

/// The hit among a batch of intersections: the smallest nonnegative `t`.
/// Intersections behind the ray origin are never selected.  Of equal `t`
/// values the earliest in the batch wins.
pub open spec fn spec_is_hit(xs: Seq<Intersection>, h: Intersection) -> bool {
    &&& xs.contains(h)
    &&& h.t >= 0
    &&& forall|j: int| 0 <= j < xs.len() && xs[j].t >= 0 ==> h.t <= xs[j].t
}

/// Whether any intersection in the batch lies on or ahead of the ray
/// origin.
pub open spec fn spec_has_hit(xs: Seq<Intersection>) -> bool {
    exists|j: int| 0 <= j < xs.len() && xs[j].t >= 0
}

impl Intersection {
    /// Create an intersection record.
    pub fn new(t: i64, object: usize) -> (r: Self)
        ensures
            r == (Intersection { t, object }),
    {
        Self { t, object }
    }
}

/// Select the hit among a batch of intersections: the one with the
/// smallest nonnegative `t`, or nothing when every intersection lies
/// behind the ray origin.
pub fn hit(xs: &Vec<Intersection>) -> (r: Option<Intersection>)
    ensures
        r is Some <==> spec_has_hit(xs@),
        r matches Some(h) ==> spec_is_hit(xs@, h),
{
    let mut best: Option<Intersection> = None;
    let mut i: usize = 0;
    while i < xs.len()
        invariant
            i <= xs.len(),
            best is Some <==> spec_has_hit(xs@.take(i as int)),
            best matches Some(h) ==> spec_is_hit(xs@.take(i as int), h),
        decreases xs.len() - i,
    {
        let x = xs[i];
        proof {
            assert(xs@.take(i as int + 1).drop_last() =~= xs@.take(i as int));
            assert(xs@.take(i as int + 1).last() == xs@[i as int]);
        }
        if x.t >= 0 {
            match best {
                None => {
                    best = Some(x);
                },
                Some(b) => {
                    if x.t < b.t {
                        best = Some(x);
                    }
                },
            }
        }
        proof {
            let prefix = xs@.take(i as int + 1);
            match best {
                Some(h) => {
                    assert(prefix.contains(h)) by {
                        if h == xs@[i as int] {
                            assert(prefix[i as int] == h);
                        } else {
                            let k = choose|k: int|
                                0 <= k < xs@.take(i as int).len() && xs@.take(i as int)[k] == h;
                            assert(prefix[k] == h);
                        }
                    }
                },
                None => {
                    assert(!spec_has_hit(prefix)) by {
                        assert(forall|j: int|
                            0 <= j < prefix.len() - 1 ==> prefix[j] == xs@.take(i as int)[j]);
                    }
                },
            }
        }
        i = i + 1;
    }
    proof {
        assert(xs@.take(xs@.len() as int) =~= xs@);
    }
    best
}

} // verus!
