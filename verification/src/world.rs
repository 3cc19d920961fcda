//! The world: every shape, at most one light, and the queries that drive
//! rendering.
//!
//! Shapes live in one indexed arena; a shape's id is its index.  Groups
//! reference their children by id and children reference their parent by
//! id, with parents always inserted before children, so parent chains and
//! group recursion terminate by construction.

use vstd::prelude::*;

use crate::color::RGB;
use crate::color::spec_rgb_add;
use crate::color::spec_rgb_scale;
use crate::computations::Computation;
use crate::fixed::SCALE;
use crate::fixed::fx_mul;
use crate::fixed::fx_sub;
use crate::intersection::Intersection;
use crate::light::PointLight;
use crate::material::Material;
use crate::matrix::Matrix;
use crate::matrix::spec_determinant;
use crate::matrix::spec_inverse;
use crate::matrix::spec_mat_mul_point;
use crate::matrix::spec_mat_mul_vector;
use crate::matrix::spec_transpose;
use crate::point::Point;
use crate::point::spec_point_sub;
use crate::ray::Ray;
use crate::ray::spec_ray_transform;
use crate::shapes::Shape;
use crate::shapes::ShapeKind;
use crate::shapes::spec_local_intersect;
use crate::shapes::spec_local_normal;
use crate::transformations::Transformation;
use crate::vector::Vector;
use crate::vector::spec_magnitude;
use crate::vector::spec_normalize;

verus! {

/// A world: an arena of owned shapes plus at most one light.
pub struct World {
    /// All shapes in the world, indexed by their id.
    pub objects: Vec<Shape>,
    /// The light source, if one has been configured.
    pub light: Option<PointLight>,
}

/// Every shape's id is its index in the arena.
pub open spec fn spec_ids_ok(w: World) -> bool {
    forall|i: int| 0 <= i < w.objects.len() ==> (#[trigger] w.objects[i]).id == i
}

/// Every parent reference points at an earlier shape, so parent chains
/// terminate.
pub open spec fn spec_parents_ok(w: World) -> bool {
    forall|i: int|
        0 <= i < w.objects.len() ==> ((#[trigger] w.objects[i]).parent matches Some(p) ==> 0 <= p
            < i)
}

/// Every group's children are later, in-bounds shapes, so group recursion
/// terminates.
pub open spec fn spec_children_ok(w: World) -> bool {
    forall|i: int|
        0 <= i < w.objects.len() ==> ((#[trigger] w.objects[i]).kind matches ShapeKind::Group {
            children,
        } ==> (forall|j: int|
            0 <= j < children.len() ==> i < #[trigger] children[j] < w.objects.len()))
}

/// A well-formed world: ids are indices, parents come before children,
/// and group members are in bounds.
pub open spec fn spec_world_wf(w: World) -> bool {
    &&& spec_ids_ok(w)
    &&& spec_parents_ok(w)
    &&& spec_children_ok(w)
}

/// Every transform in the world is invertible; scene construction must
/// never produce a non-invertible transform.
pub open spec fn spec_invertible_ok(w: World) -> bool {
    forall|i: int|
        0 <= i < w.objects.len() ==> spec_determinant(
            (#[trigger] w.objects[i]).transform.data,
            4,
        ) != 0
}

/// Every material's refractive index is positive, as the data model
/// demands; vacuum is one.
pub open spec fn spec_materials_ok(w: World) -> bool {
    forall|i: int|
        0 <= i < w.objects.len() ==> (#[trigger] w.objects[i]).material.refractive_index > 0
}

/// Every pattern's transform is invertible, like every shape's.
pub open spec fn spec_patterns_ok(w: World) -> bool {
    forall|i: int|
        0 <= i < w.objects.len() ==> ((#[trigger] w.objects[i]).material.pattern matches Some(p)
            ==> spec_determinant(p.transform.data, 4) != 0)
}

/// Everything rendering relies on: well-formed links, invertible
/// transforms and positive refractive indices.
pub open spec fn spec_render_ok(w: World) -> bool {
    &&& spec_world_wf(w)
    &&& spec_invertible_ok(w)
    &&& spec_materials_ok(w)
    &&& spec_patterns_ok(w)
}

/// A world point carried into the object space of shape `idx`, through
/// the inverse transforms of every ancestor, outermost first.
pub open spec fn spec_world_to_object(w: World, idx: int, point: Point) -> Point
    decreases idx,
        when spec_world_wf(w) && 0 <= idx < w.objects.len()
{
    let s = w.objects[idx];
    let object_point = match s.parent {
        Some(p) => spec_world_to_object(w, p as int, point),
        None => point,
    };
    spec_mat_mul_point(spec_inverse(s.transform.data), object_point)
}

/// A local normal of shape `idx` carried back to world space: through the
/// inverse transpose of its own transform, normalized, then through every
/// ancestor in turn.
pub open spec fn spec_normal_to_world(w: World, idx: int, normal: Vector) -> Vector
    decreases idx,
        when spec_world_wf(w) && 0 <= idx < w.objects.len()
{
    let s = w.objects[idx];
    let world_normal = spec_normalize(
        spec_mat_mul_vector(spec_transpose(spec_inverse(s.transform.data)), normal),
    );
    match s.parent {
        Some(p) => spec_normal_to_world(w, p as int, world_normal),
        None => world_normal,
    }
}

/// The world-space surface normal of shape `idx` at a world point,
/// resolved through its parent chain.
pub open spec fn spec_normal_at(w: World, idx: int, point: Point) -> Vector {
    let local_point = spec_world_to_object(w, idx, point);
    let local_normal = spec_local_normal(w.objects[idx], local_point);
    spec_normal_to_world(w, idx, local_normal)
}

/// All intersections of a world ray with shape `idx`: a primitive solves
/// its local equation behind its inverse transform; a group carries the
/// ray into its own space and concatenates its children's results.
pub open spec fn spec_shape_hits(w: World, idx: int, ray: Ray) -> Seq<Intersection>
    decreases w.objects.len() - idx, 1int, 0int,
        when spec_world_wf(w) && 0 <= idx < w.objects.len()
{
    let s = w.objects[idx];
    let local_ray = spec_ray_transform(ray, spec_inverse(s.transform.data));
    match s.kind {
        ShapeKind::Group { children } => spec_sort_by_t(
            spec_children_hits(w, idx, children@, 0, local_ray),
        ),
        _ => match spec_local_intersect(s, local_ray) {
            Some(v) => v,
            None => Seq::empty(),
        },
    }
}

/// The concatenated intersections of a group's children from position `k`
/// on, all against the group-local ray.
pub open spec fn spec_children_hits(
    w: World,
    gidx: int,
    children: Seq<usize>,
    k: int,
    ray: Ray,
) -> Seq<Intersection>
    decreases w.objects.len() - gidx, 0int, children.len() - k,
        when spec_world_wf(w) && 0 <= gidx < w.objects.len() && (w.objects[gidx].kind matches
    ShapeKind::Group { children: c } && c@ == children) && 0 <= k
{
    if k >= children.len() {
        Seq::empty()
    } else {
        spec_shape_hits(w, children[k] as int, ray) + spec_children_hits(
            w,
            gidx,
            children,
            k + 1,
            ray,
        )
    }
}

/// All intersections of a world ray with the top-level shapes from index
/// `i` on, in arena order.  Shapes inside groups are reached through
/// their group, never directly.
pub open spec fn spec_world_hits_from(w: World, i: int, ray: Ray) -> Seq<Intersection>
    decreases w.objects.len() - i,
        when spec_world_wf(w) && 0 <= i
{
    if i >= w.objects.len() {
        Seq::empty()
    } else {
        let here: Seq<Intersection> = if w.objects[i].parent is None {
            spec_shape_hits(w, i, ray)
        } else {
            Seq::empty()
        };
        here + spec_world_hits_from(w, i + 1, ray)
    }
}

/// All intersections of a world ray with the whole scene, unsorted.
pub open spec fn spec_world_hits(w: World, ray: Ray) -> Seq<Intersection> {
    spec_world_hits_from(w, 0, ray)
}

/// A batch of intersections in ascending `t` order.
pub open spec fn spec_sorted_by_t(s: Seq<Intersection>) -> bool {
    forall|i: int, j: int| 0 <= i < j < s.len() ==> s[i].t <= s[j].t
}

/// An intersection placed into an ascending batch: before the first entry
/// with a strictly larger `t`, so equal distances keep their old order.
pub open spec fn spec_insert_sorted(x: Intersection, s: Seq<Intersection>) -> Seq<Intersection>
    decreases s.len(),
{
    if s.len() == 0 {
        seq![x]
    } else if x.t < s[0].t {
        seq![x] + s
    } else {
        seq![s[0]] + spec_insert_sorted(x, s.drop_first())
    }
}

/// A batch of intersections sorted into ascending `t` order by stable
/// insertion.
pub open spec fn spec_sort_by_t(s: Seq<Intersection>) -> Seq<Intersection>
    decreases s.len(),
{
    if s.len() == 0 {
        Seq::empty()
    } else {
        spec_insert_sorted(s.last(), spec_sort_by_t(s.drop_last()))
    }
}

/// Inserting keeps an ascending batch ascending, keeps its contents, and
/// grows it by one.
pub proof fn lemma_insert_sorted(x: Intersection, s: Seq<Intersection>)
    requires
        spec_sorted_by_t(s),
    ensures
        spec_sorted_by_t(spec_insert_sorted(x, s)),
        spec_insert_sorted(x, s).to_multiset() == s.push(x).to_multiset(),
        spec_insert_sorted(x, s).len() == s.len() + 1,
    decreases s.len(),
{
    broadcast use vstd::seq_lib::group_to_multiset_ensures;

    let r = spec_insert_sorted(x, s);
    if s.len() == 0 {
        assert(r =~= seq![x]);
        assert(s.push(x) =~= seq![x]);
    } else if x.t < s[0].t {
        assert(r =~= seq![x] + s);
        assert(r.to_multiset() =~= s.push(x).to_multiset()) by {
            assert(r =~= s.insert(0, x));
            vstd::seq_lib::to_multiset_insert(s, 0, x);
            vstd::seq_lib::to_multiset_insert(s, s.len() as int, x);
            assert(s.insert(s.len() as int, x) =~= s.push(x));
        }
    } else {
        let rest = s.drop_first();
        assert(spec_sorted_by_t(rest)) by {
            assert(forall|i: int, j: int|
                0 <= i < j < rest.len() ==> rest[i] == s[i + 1] && rest[j] == s[j + 1]);
        }
        lemma_insert_sorted(x, rest);
        let inner = spec_insert_sorted(x, rest);
        assert(r =~= seq![s[0]] + inner);
        assert(spec_sorted_by_t(r)) by {
            assert(forall|j: int| 0 <= j < inner.len() ==> r[j + 1] == inner[j]);
            assert(forall|j: int|
                0 <= j < inner.len() ==> inner.to_multiset().contains(#[trigger] inner[j]));
            assert(forall|j: int|
                0 <= j < inner.len() ==> rest.push(x).to_multiset().contains(#[trigger] inner[j]));
            assert(forall|j: int|
                0 <= j < inner.len() ==> s[0].t <= (#[trigger] inner[j]).t) by {
                assert(forall|y: Intersection|
                    rest.push(x).to_multiset().contains(y) ==> rest.push(x).contains(y));
                assert(forall|k: int|
                    0 <= k < rest.len() ==> s[0].t <= (#[trigger] rest[k]).t);
                assert(forall|y: Intersection|
                    #[trigger] rest.push(x).contains(y) ==> rest.contains(y) || y == x);
            }
        }
        assert(r.to_multiset() =~= s.push(x).to_multiset()) by {
            assert(r =~= inner.insert(0, s[0]));
            vstd::seq_lib::to_multiset_insert(inner, 0, s[0]);
            assert(inner.to_multiset() =~= rest.push(x).to_multiset());
            assert(rest.push(x).to_multiset() =~= rest.to_multiset().insert(x));
            assert(s =~= rest.insert(0, s[0]));
            vstd::seq_lib::to_multiset_insert(rest, 0, s[0]);
            assert(s.push(x).to_multiset() =~= s.to_multiset().insert(x));
        }
    }
}

/// Sorting yields an ascending batch with exactly the same contents.
pub proof fn lemma_sort_by_t(s: Seq<Intersection>)
    ensures
        spec_sorted_by_t(spec_sort_by_t(s)),
        spec_sort_by_t(s).to_multiset() == s.to_multiset(),
        spec_sort_by_t(s).len() == s.len(),
    decreases s.len(),
{
    broadcast use vstd::seq_lib::group_to_multiset_ensures;

    if s.len() == 0 {
        assert(spec_sort_by_t(s) =~= Seq::<Intersection>::empty());
    } else {
        lemma_sort_by_t(s.drop_last());
        lemma_insert_sorted(s.last(), spec_sort_by_t(s.drop_last()));
        assert(spec_sort_by_t(s.drop_last()).push(s.last()).to_multiset() =~= s.to_multiset()) by {
            assert(spec_sort_by_t(s.drop_last()).push(s.last()).to_multiset() =~= spec_sort_by_t(
                s.drop_last(),
            ).to_multiset().insert(s.last()));
            assert(s.to_multiset() =~= s.drop_last().to_multiset().insert(s.last())) by {
                assert(s =~= s.drop_last().push(s.last()));
            }
        }
    }
}

/// The first intersection at or ahead of the ray origin in an ascending
/// batch: the hit that shading uses.
pub open spec fn spec_first_hit(s: Seq<Intersection>) -> Option<Intersection>
    decreases s.len(),
{
    if s.len() == 0 {
        None
    } else if s[0].t >= 0 {
        Some(s[0])
    } else {
        spec_first_hit(s.drop_first())
    }
}

/// In an ascending batch the first nonnegative entry is a least
/// nonnegative entry, and when there is none, every entry is negative.
pub proof fn lemma_first_hit_least(s: Seq<Intersection>)
    requires
        spec_sorted_by_t(s),
    ensures
        spec_first_hit(s) is None ==> forall|j: int| 0 <= j < s.len() ==> (#[trigger] s[j]).t < 0,
        spec_first_hit(s) matches Some(h) ==> s.contains(h) && h.t >= 0 && forall|j: int|
            0 <= j < s.len() && (#[trigger] s[j]).t >= 0 ==> h.t <= s[j].t,
    decreases s.len(),
{
    if s.len() == 0 {
    } else if s[0].t >= 0 {
        assert(s.contains(s[0]));
        assert(forall|j: int| 0 <= j < s.len() ==> s[0].t <= (#[trigger] s[j]).t);
    } else {
        let rest = s.drop_first();
        assert(spec_sorted_by_t(rest)) by {
            assert(forall|i: int, j: int|
                0 <= i < j < rest.len() ==> rest[i] == s[i + 1] && rest[j] == s[j + 1]);
        }
        lemma_first_hit_least(rest);
        match spec_first_hit(rest) {
            Some(h) => {
                assert(rest.contains(h));
                let k = choose|k: int| 0 <= k < rest.len() && rest[k] == h;
                assert(s[k + 1] == h);
                assert(s.contains(h));
                assert(forall|j: int|
                    1 <= j < s.len() ==> s[j] == rest[j - 1]);
            },
            None => {
                assert(forall|j: int| 1 <= j < s.len() ==> s[j] == rest[j - 1]);
            },
        }
    }
}

/// Whether a point lies in shadow: a ray cast from the point toward the
/// light finds a hit strictly closer than the light itself.
#[verifier::opaque]
pub open spec fn spec_is_shadowed(w: World, p: Point) -> bool {
    let light = w.light->Some_0;
    let v = spec_point_sub(light.position, p);
    let distance = spec_magnitude(v);
    let shadow_ray = Ray { origin: p, direction: spec_normalize(v) };
    match spec_first_hit(spec_sort_by_t(spec_world_hits(w, shadow_ray))) {
        Some(h) => h.t < distance,
        None => false,
    }
}

impl World {
    /// An empty world: no shapes, no light.
    pub fn new() -> (r: Self)
        ensures
            r.objects@ == Seq::<Shape>::empty(),
            r.light is None,
            spec_render_ok(r),
    {
        Self { objects: Vec::new(), light: None }
    }

    /// Set the light source of the world.
    pub fn set_light(&mut self, light: PointLight)
        ensures
            final(self).objects == old(self).objects,
            final(self).light == Some(light),
    {
        self.light = Some(light);
    }

    /// Add a free-standing shape to the world and hand back its id.  The
    /// shape must not claim a parent yet, and a group must still be
    /// empty; links are made afterwards through `add_child`.
    pub fn add_object(&mut self, object: Shape) -> (id: usize)
        requires
            object.parent is None,
            object.kind matches ShapeKind::Group { children } ==> children@ == Seq::<
                usize,
            >::empty(),
            old(self).objects.len() < usize::MAX,
        ensures
            id == old(self).objects.len(),
            final(self).objects@ == old(self).objects@.push(
                Shape { id: old(self).objects.len() as usize, ..object },
            ),
            final(self).light == old(self).light,
            spec_world_wf(*old(self)) ==> spec_world_wf(*final(self)),
            spec_invertible_ok(*old(self)) && spec_determinant(object.transform.data, 4) != 0
                ==> spec_invertible_ok(*final(self)),
            spec_materials_ok(*old(self)) && object.material.refractive_index > 0
                ==> spec_materials_ok(*final(self)),
    {
        let id: usize = self.objects.len();
        let mut object = object;
        object.id = id;
        self.objects.push(object);
        proof {
            let w = *self;
            let ow = *old(self);
            assert(spec_world_wf(ow) ==> spec_world_wf(w)) by {
                if spec_world_wf(ow) {
                    assert(forall|i: int|
                        0 <= i < ow.objects.len() ==> w.objects[i] == ow.objects[i]);
                }
            }
        }
        id
    }

    /// Link a previously added shape under a previously added group.  The
    /// group must come before the child in the arena, and the child must
    /// not already have a parent.
    pub fn add_child(&mut self, group_id: usize, child_id: usize)
        requires
            spec_world_wf(*old(self)),
            group_id < child_id < old(self).objects.len(),
            old(self).objects[group_id as int].kind is Group,
            old(self).objects[child_id as int].parent is None,
        ensures
            spec_world_wf(*final(self)),
            final(self).light == old(self).light,
            final(self).objects.len() == old(self).objects.len(),
            final(self).objects[child_id as int] == (Shape {
                parent: Some(group_id),
                ..old(self).objects[child_id as int]
            }),
            ({
                let og = old(self).objects[group_id as int];
                let ng = final(self).objects[group_id as int];
                &&& ng.id == og.id
                &&& ng.transform == og.transform
                &&& ng.material == og.material
                &&& ng.parent == og.parent
                &&& (og.kind matches ShapeKind::Group { children: c1 } ==> (
                ng.kind matches ShapeKind::Group { children: c2 } && c2@ == c1@.push(child_id)))
            }),
            forall|i: int|
                0 <= i < old(self).objects.len() && i != group_id && i != child_id
                    ==> final(self).objects[i] == old(self).objects[i],
            spec_invertible_ok(*old(self)) ==> spec_invertible_ok(*final(self)),
            spec_materials_ok(*old(self)) ==> spec_materials_ok(*final(self)),
    {
        let mut child = self.objects.remove(child_id);
        child.parent = Some(group_id);
        self.objects.insert(child_id, child);
        let mut group = self.objects.remove(group_id);
        match &mut group.kind {
            ShapeKind::Group { children } => {
                children.push(child_id);
            },
            _ => {
                proof {
                    assert(false);
                }
            },
        }
        self.objects.insert(group_id, group);
        proof {
            let w = *self;
            let ow = *old(self);
            assert(forall|i: int|
                0 <= i < ow.objects.len() && i != group_id && i != child_id ==> w.objects[i]
                    == ow.objects[i]);
            assert(spec_ids_ok(w));
            assert(spec_parents_ok(w));
            assert forall|i: int|
                0 <= i < w.objects.len() implies ((#[trigger] w.objects[i]).kind matches
            ShapeKind::Group { children } ==> (forall|j: int|
                0 <= j < children.len() ==> i < #[trigger] children[j] < w.objects.len())) by {
                if i != group_id && i != child_id {
                    assert(w.objects[i] == ow.objects[i]);
                }
            }
        }
    }

    /// A reference to the shape with the given id, when it exists.
    pub fn get_object(&self, index: usize) -> (r: Option<&Shape>)
        ensures
            index < self.objects.len() ==> r == Some(&self.objects[index as int]),
            index >= self.objects.len() ==> r is None,
    {
        if index < self.objects.len() {
            Some(&self.objects[index])
        } else {
            None
        }
    }

    /// Replace the material of the shape with the given id.
    pub fn set_object_material(&mut self, index: usize, m: Material)
        requires
            index < old(self).objects.len(),
        ensures
            final(self).objects@ == old(self).objects@.update(
                index as int,
                Shape { material: m, ..old(self).objects[index as int] },
            ),
            final(self).light == old(self).light,
            spec_world_wf(*old(self)) ==> spec_world_wf(*final(self)),
            spec_invertible_ok(*old(self)) ==> spec_invertible_ok(*final(self)),
            spec_materials_ok(*old(self)) && m.refractive_index > 0 ==> spec_materials_ok(
                *final(self),
            ),
    {
        let mut s = self.objects.remove(index);
        s.material = m;
        self.objects.insert(index, s);
        proof {
            assert(final(self).objects@ =~= old(self).objects@.update(
                index as int,
                Shape { material: m, ..old(self).objects[index as int] },
            ));
        }
    }

    /// Replace the transformation of the shape with the given id.
    pub fn set_object_transform(&mut self, index: usize, t: Transformation)
        requires
            index < old(self).objects.len(),
        ensures
            final(self).objects@ == old(self).objects@.update(
                index as int,
                Shape { transform: t, ..old(self).objects[index as int] },
            ),
            final(self).light == old(self).light,
            spec_world_wf(*old(self)) ==> spec_world_wf(*final(self)),
            spec_invertible_ok(*old(self)) && spec_determinant(t.data, 4) != 0
                ==> spec_invertible_ok(*final(self)),
            spec_materials_ok(*old(self)) ==> spec_materials_ok(*final(self)),
    {
        let mut s = self.objects.remove(index);
        s.transform = t;
        self.objects.insert(index, s);
        proof {
            assert(final(self).objects@ =~= old(self).objects@.update(
                index as int,
                Shape { transform: t, ..old(self).objects[index as int] },
            ));
        }
    }

    /// Carry a world point into the object space of shape `idx`, through
    /// the inverse transforms of every ancestor.
    pub fn world_to_object(&self, idx: usize, point: Point) -> (r: Point)
        requires
            spec_world_wf(*self),
            spec_invertible_ok(*self),
            idx < self.objects.len(),
        ensures
            r == spec_world_to_object(*self, idx as int, point),
        decreases idx,
    {
        let object_point: Point = match self.objects[idx].parent {
            Some(p) => self.world_to_object(p, point),
            None => point,
        };
        let inv: Matrix = match self.objects[idx].transform.init().inverse(4) {
            Ok(m) => m,
            Err(_) => {
                proof {
                    assert(false);
                }
                Matrix::identity()
            },
        };
        inv.mul_point(object_point)
    }

    /// Carry a local normal of shape `idx` back to world space through its
    /// whole parent chain, renormalizing at every step.
    pub fn normal_to_world(&self, idx: usize, normal: Vector) -> (r: Vector)
        requires
            spec_world_wf(*self),
            spec_invertible_ok(*self),
            idx < self.objects.len(),
        ensures
            r == spec_normal_to_world(*self, idx as int, normal),
        decreases idx,
    {
        let inv: Matrix = match self.objects[idx].transform.init().inverse(4) {
            Ok(m) => m,
            Err(_) => {
                proof {
                    assert(false);
                }
                Matrix::identity()
            },
        };
        let world_normal: Vector = inv.transpose().mul_vector(normal).normalize();
        match self.objects[idx].parent {
            Some(p) => self.normal_to_world(p, world_normal),
            None => world_normal,
        }
    }

    /// The world-space surface normal of shape `idx` at a world point,
    /// resolved through its parent chain.
    pub fn normal_at(&self, idx: usize, point: Point) -> (r: Vector)
        requires
            spec_world_wf(*self),
            spec_invertible_ok(*self),
            idx < self.objects.len(),
            !(self.objects[idx as int].kind is Group),
        ensures
            r == spec_normal_at(*self, idx as int, point),
    {
        let local_point: Point = self.world_to_object(idx, point);
        let local_normal: Vector = self.objects[idx].local_normal_at(local_point);
        self.normal_to_world(idx, local_normal)
    }

    /// All intersections of a world ray with shape `idx`.  A primitive
    /// solves its local equation behind its inverse transform; a group
    /// carries the ray into its own space, gathers its children's results
    /// and sorts them by distance.
    pub fn intersect_shape(&self, idx: usize, ray: &Ray) -> (r: Vec<Intersection>)
        requires
            spec_world_wf(*self),
            spec_invertible_ok(*self),
            idx < self.objects.len(),
        ensures
            r@ == spec_shape_hits(*self, idx as int, *ray),
        decreases self.objects.len() - idx,
    {
        let inv: Matrix = match self.objects[idx].transform.init().inverse(4) {
            Ok(m) => m,
            Err(_) => {
                proof {
                    assert(false);
                }
                Matrix::identity()
            },
        };
        let local_ray: Ray = ray.transform(&inv);
        let is_group: bool = match &self.objects[idx].kind {
            ShapeKind::Group { .. } => true,
            _ => false,
        };
        if is_group {
            let mut acc: Vec<Intersection> = Vec::new();
            let num_children: usize = match &self.objects[idx].kind {
                ShapeKind::Group { children } => children.len(),
                _ => 0,
            };
            let ghost children: Seq<usize> = match self.objects[idx as int].kind {
                ShapeKind::Group { children } => children@,
                _ => Seq::empty(),
            };
            let mut j: usize = 0;
            while j < num_children
                invariant
                    spec_world_wf(*self),
                    spec_invertible_ok(*self),
                    idx < self.objects.len(),
                    self.objects[idx as int].kind matches ShapeKind::Group { children: c } && c@
                        == children,
                    num_children == children.len(),
                    j <= num_children,
                    spec_children_hits(*self, idx as int, children, 0, local_ray) == acc@
                        + spec_children_hits(*self, idx as int, children, j as int, local_ray),
                decreases num_children - j,
            {
                let child: usize = match &self.objects[idx].kind {
                    ShapeKind::Group { children } => children[j],
                    _ => 0,
                };
                let mut part: Vec<Intersection> = self.intersect_shape(child, &local_ray);
                proof {
                    assert(spec_children_hits(*self, idx as int, children, j as int, local_ray)
                        == spec_shape_hits(*self, children[j as int] as int, local_ray)
                        + spec_children_hits(*self, idx as int, children, j as int + 1, local_ray));
                }
                acc.append(&mut part);
                proof {
                    assert(spec_children_hits(*self, idx as int, children, 0, local_ray) =~= acc@
                        + spec_children_hits(*self, idx as int, children, j as int + 1, local_ray));
                }
                j = j + 1;
            }
            proof {
                assert(spec_children_hits(*self, idx as int, children, num_children as int,
                    local_ray) =~= Seq::<Intersection>::empty());
                assert(acc@ =~= spec_children_hits(*self, idx as int, children, 0, local_ray));
            }
            sort_intersections(acc)
        } else {
            match self.objects[idx].local_intersect(&local_ray) {
                Some(v) => v,
                None => {
                    let v: Vec<Intersection> = Vec::new();
                    proof {
                        assert(v@ =~= spec_shape_hits(*self, idx as int, *ray));
                    }
                    v
                },
            }
        }
    }

    /// All intersections of a world ray with the whole scene, sorted into
    /// ascending distance order, or nothing when the ray misses
    /// everything.
    #[verifier::rlimit(60)]
    pub fn intersect_world(&self, ray: &Ray) -> (r: Option<Vec<Intersection>>)
        requires
            spec_world_wf(*self),
            spec_invertible_ok(*self),
        ensures
            r is Some <==> spec_world_hits(*self, *ray).len() > 0,
            r matches Some(v) ==> v@ == spec_sort_by_t(spec_world_hits(*self, *ray))
                && spec_sorted_by_t(v@),
    {
        let mut acc: Vec<Intersection> = Vec::new();
        let mut i: usize = 0;
        let n: usize = self.objects.len();
        proof {
            assert(spec_world_hits_from(*self, 0, *ray) =~= acc@ + spec_world_hits_from(
                *self,
                0,
                *ray,
            ));
        }
        while i < n
            invariant
                spec_world_wf(*self),
                spec_invertible_ok(*self),
                n == self.objects.len(),
                i <= n,
                spec_world_hits_from(*self, 0, *ray) == acc@ + spec_world_hits_from(
                    *self,
                    i as int,
                    *ray,
                ),
            decreases n - i,
        {
            if self.objects[i].parent.is_none() {
                let mut part: Vec<Intersection> = self.intersect_shape(i, ray);
                acc.append(&mut part);
            }
            proof {
                assert(spec_world_hits_from(*self, 0, *ray) =~= acc@ + spec_world_hits_from(
                    *self,
                    i as int + 1,
                    *ray,
                ));
            }
            i = i + 1;
        }
        proof {
            assert(spec_world_hits_from(*self, n as int, *ray) =~= Seq::<Intersection>::empty());
            assert(acc@ =~= spec_world_hits(*self, *ray));
            lemma_sort_by_t(acc@);
        }
        if acc.len() == 0 {
            None
        } else {
            Some(sort_intersections(acc))
        }
    }

    /// Whether a point lies in shadow: a ray cast from the point toward
    /// the configured light finds a hit strictly closer than the light.
    pub fn is_shadowed(&self, p: Point) -> (r: bool)
        requires
            spec_world_wf(*self),
            spec_invertible_ok(*self),
            self.light is Some,
        ensures
            r == spec_is_shadowed(*self, p),
    {
        proof {
            reveal(spec_is_shadowed);
        }
        let light: PointLight = match &self.light {
            Some(l) => *l,
            None => {
                proof {
                    assert(false);
                }
                PointLight { intensity: crate::color::RGB { red: 0, green: 0, blue: 0 }, position: p }
            },
        };
        let v: Vector = light.get_position().sub(p);
        let distance: i64 = v.magnitude();
        let direction: Vector = v.normalize();
        let shadow_ray = Ray { origin: p, direction };
        match self.intersect_world(&shadow_ray) {
            Some(xs) => {
                match first_hit(&xs) {
                    Some(h) => h.t < distance,
                    None => false,
                }
            },
            None => false,
        }
    }

    /// The color gathered along a reflection bounce.  With no bounce
    /// budget left the answer is black, whatever the material.
    #[verifier::rlimit(100)]
    #[verifier::spinoff_prover]
    pub fn reflected_color(&self, comps: &Computation, remaining: usize) -> (r: RGB)
        requires
            spec_render_ok(*self),
            self.light is Some,
            comps.object < self.objects.len(),
        ensures
            r == spec_reflected_color(*self, *comps, remaining as int),
            remaining == 0 ==> r == (RGB { red: 0, green: 0, blue: 0 }),
        decreases remaining, 0int,
    {
        proof {
            reveal(spec_reflected_color);
        }
        let m: Material = self.objects[comps.object].material;
        if m.reflective == 0 || remaining == 0 {
            RGB::black()
        } else {
            let reflect_ray = Ray { origin: comps.over_point, direction: comps.reflectv };
            let color: RGB = self.color_at(&reflect_ray, remaining - 1);
            color.scale(m.reflective)
        }
    }

    /// The color gathered along a refraction bounce.  With no bounce
    /// budget left, or under total internal reflection, the answer is
    /// black.
    #[verifier::rlimit(100)]
    #[verifier::spinoff_prover]
    pub fn refracted_color(&self, comps: &Computation, remaining: usize) -> (r: RGB)
        requires
            spec_render_ok(*self),
            self.light is Some,
            comps.object < self.objects.len(),
            comps.n2 != 0,
        ensures
            r == spec_refracted_color(*self, *comps, remaining as int),
            remaining == 0 ==> r == (RGB { red: 0, green: 0, blue: 0 }),
        decreases remaining, 1int,
    {
        proof {
            reveal(spec_refracted_color);
        }
        let m: Material = self.objects[comps.object].material;
        if m.transparency == 0 || remaining == 0 {
            RGB::black()
        } else {
            let n_ratio: i64 = crate::fixed::fx_div(comps.n1, comps.n2);
            let cos_i: i64 = comps.eyev.dot(comps.normalv);
            let sin2_t: i64 = fx_mul(fx_mul(n_ratio, n_ratio), fx_sub(SCALE, fx_mul(cos_i, cos_i)));
            if sin2_t > SCALE {
                RGB::black()
            } else {
                let cos_t: i64 = crate::fixed::fx_sqrt(fx_sub(SCALE, sin2_t));
                let direction: Vector = comps.normalv.scale(fx_sub(fx_mul(n_ratio, cos_i), cos_t))
                    .sub(comps.eyev.scale(n_ratio));
                let refract_ray = Ray { origin: comps.under_point, direction };
                let color: RGB = self.color_at(&refract_ray, remaining - 1);
                color.scale(m.transparency)
            }
        }
    }

    /// The full shade of one hit: direct Phong lighting with shadowing,
    /// plus the reflected and refracted contributions; a surface that
    /// both reflects and transmits blends the two by the Schlick
    /// reflectance.
    #[verifier::rlimit(100)]
    #[verifier::spinoff_prover]
    pub fn shade_hit(&self, comps: &Computation, remaining: usize) -> (r: RGB)
        requires
            spec_render_ok(*self),
            self.light is Some,
            comps.object < self.objects.len(),
            comps.n1 > 0,
            comps.n2 > 0,
        ensures
            r == spec_shade_hit(*self, *comps, remaining as int),
        decreases remaining, 2int,
    {
        proof {
            reveal(spec_shade_hit);
        }
        let light: PointLight = match &self.light {
            Some(l) => *l,
            None => {
                proof {
                    assert(false);
                }
                PointLight {
                    intensity: RGB { red: 0, green: 0, blue: 0 },
                    position: comps.point,
                }
            },
        };
        let shadowed: bool = self.is_shadowed(comps.over_point);
        let m: Material = self.objects[comps.object].material;
        let surface: RGB = m.lightning(
            &self.objects[comps.object],
            light,
            comps.point,
            comps.eyev,
            comps.normalv,
            shadowed,
        );
        let reflected: RGB = self.reflected_color(comps, remaining);
        let refracted: RGB = self.refracted_color(comps, remaining);
        if m.reflective > 0 && m.transparency > 0 {
            let reflectance: i64 = comps.schlick();
            surface.add(reflected.scale(reflectance)).add(
                refracted.scale(fx_sub(SCALE, reflectance)),
            )
        } else {
            surface.add(reflected).add(refracted)
        }
    }

    /// The color seen along a ray: find the hit with the smallest
    /// nonnegative distance, precompute its shading inputs and shade it,
    /// or report black on a miss.
    #[verifier::rlimit(100)]
    #[verifier::spinoff_prover]
    pub fn color_at(&self, ray: &Ray, remaining: usize) -> (r: RGB)
        requires
            spec_render_ok(*self),
            self.light is Some,
        ensures
            r == spec_color_at(*self, *ray, remaining as int),
        decreases remaining, 4int,
    {
        proof {
            reveal(spec_color_at);
        }
        match self.intersect_world(ray) {
            None => RGB::black(),
            Some(xs) => {
                match first_hit(&xs) {
                    None => RGB::black(),
                    Some(h) => self.shade_first_hit(ray, &xs, h, remaining),
                }
            },
        }
    }

    /// Precompute the shading inputs for the selected hit of a sorted
    /// batch and shade it.
    #[verifier::rlimit(100)]
    #[verifier::spinoff_prover]
    fn shade_first_hit(&self, ray: &Ray, xs: &Vec<Intersection>, h: Intersection, remaining: usize)
        -> (r: RGB)
        requires
            spec_render_ok(*self),
            self.light is Some,
            xs@ == spec_sort_by_t(spec_world_hits(*self, *ray)),
            spec_first_hit(xs@) == Some(h),
        ensures
            r == spec_shade_hit(
                *self,
                crate::computations::spec_prepare_computations(*self, h, *ray, xs@),
                remaining as int,
            ),
        decreases remaining, 3int,
    {
        proof {
            lemma_world_hits_targets_ok(*self, 0, *ray);
            lemma_sorted_targets_ok(*self, spec_world_hits(*self, *ray));
            lemma_sort_by_t(spec_world_hits(*self, *ray));
            lemma_first_hit_least(xs@);
            let k = choose|k: int| 0 <= k < xs@.len() && xs@[k] == h;
            assert(crate::computations::spec_ieq(xs@[k], h));
            crate::computations::lemma_refraction_positive(*self, xs@, h, 0, Seq::empty());
        }
        let comps: Computation = h.prepare_computations(ray, &xs, self);
        self.shade_hit(&comps, remaining)
    }

    /// Check everything rendering relies on: ids match indices, parents
    /// come before children, group members are in bounds, every shape
    /// and pattern transform is invertible, and every refractive index
    /// is positive.
    pub fn renderable(&self) -> (r: bool)
        ensures
            r == spec_render_ok(*self),
    {
        let n: usize = self.objects.len();
        let mut i: usize = 0;
        let mut ok: bool = true;
        while i < n
            invariant
                n == self.objects.len(),
                i <= n,
                ok == (forall|q: int| 0 <= q < i ==> spec_object_render_ok(*self, q)),
            decreases n - i,
        {
            let this_ok: bool = self.object_render_ok(i);
            ok = ok && this_ok;
            i = i + 1;
        }
        proof {
            if ok {
                assert forall|q: int| 0 <= q < self.objects.len() implies (#[trigger] self.objects[q]).id
                    == q by {
                    assert(spec_object_render_ok(*self, q));
                }
                assert forall|q: int|
                    0 <= q < self.objects.len() implies ((#[trigger] self.objects[q]).parent matches Some(
                    p) ==> 0 <= p < q) by {
                    assert(spec_object_render_ok(*self, q));
                }
                assert forall|q: int|
                    0 <= q < self.objects.len() implies ((#[trigger] self.objects[q]).kind matches
                ShapeKind::Group { children } ==> (forall|j: int|
                    0 <= j < children.len() ==> q < #[trigger] children[j]
                        < self.objects.len())) by {
                    assert(spec_object_render_ok(*self, q));
                }
                assert forall|q: int|
                    0 <= q < self.objects.len() implies spec_determinant(
                    (#[trigger] self.objects[q]).transform.data,
                    4,
                ) != 0 by {
                    assert(spec_object_render_ok(*self, q));
                }
                assert forall|q: int|
                    0 <= q < self.objects.len() implies (#[trigger] self.objects[q]).material.refractive_index
                    > 0 by {
                    assert(spec_object_render_ok(*self, q));
                }
                assert forall|q: int|
                    0 <= q < self.objects.len() implies ((#[trigger] self.objects[q]).material.pattern
                    matches Some(p) ==> spec_determinant(p.transform.data, 4) != 0) by {
                    assert(spec_object_render_ok(*self, q));
                }
                assert(spec_render_ok(*self));
            } else {
                let q = choose|q: int| 0 <= q < n && !spec_object_render_ok(*self, q);
                if spec_render_ok(*self) {
                    assert(self.objects[q].id == q);
                    assert(self.objects[q].parent matches Some(p) ==> 0 <= p < q);
                    assert(self.objects[q].kind matches ShapeKind::Group { children } ==> (
                    forall|j: int|
                        0 <= j < children.len() ==> q < #[trigger] children[j]
                            < self.objects.len()));
                    assert(spec_determinant(self.objects[q].transform.data, 4) != 0);
                    assert(self.objects[q].material.refractive_index > 0);
                    assert(self.objects[q].material.pattern matches Some(p) ==> spec_determinant(
                        p.transform.data,
                        4,
                    ) != 0);
                    assert(spec_object_render_ok(*self, q));
                }
            }
        }
        ok
    }

    /// Check one shape's part of the rendering conditions.
    fn object_render_ok(&self, i: usize) -> (r: bool)
        requires
            i < self.objects.len(),
        ensures
            r == spec_object_render_ok(*self, i as int),
    {
        let s: &Shape = &self.objects[i];
        if s.id != i {
            return false;
        }
        match s.parent {
            Some(p) => {
                if !(p < i) {
                    return false;
                }
            },
            None => {},
        }
        let children_ok: bool = match &s.kind {
            ShapeKind::Group { children } => {
                let mut j: usize = 0;
                let mut cok: bool = true;
                while j < children.len()
                    invariant
                        j <= children@.len(),
                        cok == (forall|q: int|
                            0 <= q < j ==> i < #[trigger] children@[q] < self.objects.len()),
                        self.objects[i as int].kind matches ShapeKind::Group { children: c } && c
                            == children,
                    decreases children@.len() - j,
                {
                    let c: usize = children[j];
                    cok = cok && i < c && c < self.objects.len();
                    j = j + 1;
                }
                cok
            },
            _ => true,
        };
        if !children_ok {
            return false;
        }
        if self.objects[i].transform.init().determinant(4) == 0 {
            return false;
        }
        if !(self.objects[i].material.refractive_index > 0) {
            return false;
        }
        match &self.objects[i].material.pattern {
            Some(p) => p.transform.init().determinant(4) != 0,
            None => true,
        }
    }
}

/// One shape's part of the rendering conditions.
pub open spec fn spec_object_render_ok(w: World, i: int) -> bool {
    let s = w.objects[i];
    &&& s.id == i
    &&& (s.parent matches Some(p) ==> 0 <= p < i)
    &&& (s.kind matches ShapeKind::Group { children } ==> (forall|j: int|
        0 <= j < children.len() ==> i < #[trigger] children[j] < w.objects.len()))
    &&& spec_determinant(s.transform.data, 4) != 0
    &&& s.material.refractive_index > 0
    &&& (s.material.pattern matches Some(p) ==> spec_determinant(p.transform.data, 4) != 0)
}

/// Every intersection in a batch names an in-bounds, non-group shape.
pub open spec fn spec_hit_targets_ok(w: World, s: Seq<Intersection>) -> bool {
    forall|i: int|
        0 <= i < s.len() ==> (#[trigger] s[i]).object < w.objects.len() && !(w.objects[s[i].object
            as int].kind is Group)
}

/// Sorting a batch keeps every target in bounds and primitive.
pub proof fn lemma_sorted_targets_ok(w: World, s: Seq<Intersection>)
    requires
        spec_hit_targets_ok(w, s),
    ensures
        spec_hit_targets_ok(w, spec_sort_by_t(s)),
{
    broadcast use vstd::seq_lib::group_to_multiset_ensures;

    lemma_sort_by_t(s);
    let r = spec_sort_by_t(s);
    assert forall|i: int|
        0 <= i < r.len() implies (#[trigger] r[i]).object < w.objects.len() && !(w.objects[r[i].object
        as int].kind is Group) by {
        assert(r.to_multiset().contains(r[i]));
        assert(s.to_multiset().contains(r[i]));
        assert(s.contains(r[i]));
        let j = choose|j: int| 0 <= j < s.len() && s[j] == r[i];
        assert(s[j].object < w.objects.len());
    }
}

/// Every intersection a shape reports names an in-bounds, non-group
/// shape.
pub proof fn lemma_shape_hits_targets_ok(w: World, idx: int, ray: Ray)
    requires
        spec_world_wf(w),
        0 <= idx < w.objects.len(),
    ensures
        spec_hit_targets_ok(w, spec_shape_hits(w, idx, ray)),
    decreases w.objects.len() - idx, 1int, 0int,
{
    let s = w.objects[idx];
    let local_ray = spec_ray_transform(ray, spec_inverse(s.transform.data));
    match s.kind {
        ShapeKind::Group { children } => {
            lemma_children_hits_targets_ok(w, idx, children@, 0, local_ray);
            lemma_sorted_targets_ok(w, spec_children_hits(w, idx, children@, 0, local_ray));
        },
        _ => {
            crate::shapes::lemma_local_intersect_object(s, local_ray);
            match spec_local_intersect(s, local_ray) {
                Some(v) => {
                    assert(forall|i: int| 0 <= i < v.len() ==> (#[trigger] v[i]).object == s.id);
                    assert(s.id == idx);
                },
                None => {
                },
            }
        },
    }
}

/// Every intersection a group's children report names an in-bounds,
/// non-group shape.
proof fn lemma_children_hits_targets_ok(
    w: World,
    gidx: int,
    children: Seq<usize>,
    k: int,
    ray: Ray,
)
    requires
        spec_world_wf(w),
        0 <= gidx < w.objects.len(),
        w.objects[gidx].kind matches ShapeKind::Group { children: c } && c@ == children,
        0 <= k,
    ensures
        spec_hit_targets_ok(w, spec_children_hits(w, gidx, children, k, ray)),
    decreases w.objects.len() - gidx, 0int, children.len() - k,
{
    if k >= children.len() {
    } else {
        lemma_shape_hits_targets_ok(w, children[k] as int, ray);
        lemma_children_hits_targets_ok(w, gidx, children, k + 1, ray);
        let a = spec_shape_hits(w, children[k] as int, ray);
        let b = spec_children_hits(w, gidx, children, k + 1, ray);
        assert(forall|i: int|
            0 <= i < (a + b).len() ==> (a + b)[i] == (if i < a.len() {
                a[i]
            } else {
                b[i - a.len()]
            }));
    }
}

/// Every intersection the whole scene reports names an in-bounds,
/// non-group shape.
pub proof fn lemma_world_hits_targets_ok(w: World, i: int, ray: Ray)
    requires
        spec_world_wf(w),
        0 <= i,
    ensures
        spec_hit_targets_ok(w, spec_world_hits_from(w, i, ray)),
    decreases w.objects.len() - i,
{
    if i >= w.objects.len() {
    } else {
        lemma_world_hits_targets_ok(w, i + 1, ray);
        let here: Seq<Intersection> = if w.objects[i].parent is None {
            spec_shape_hits(w, i, ray)
        } else {
            Seq::empty()
        };
        if w.objects[i].parent is None {
            lemma_shape_hits_targets_ok(w, i, ray);
        }
        let b = spec_world_hits_from(w, i + 1, ray);
        assert(forall|q: int|
            0 <= q < (here + b).len() ==> (here + b)[q] == (if q < here.len() {
                here[q]
            } else {
                b[q - here.len()]
            }));
    }
}

/// The color gathered along a reflection bounce: black for a matte
/// surface or an exhausted bounce budget, else the color of the
/// reflected ray scaled by the surface's reflectivity.
#[verifier::opaque]
pub open spec fn spec_reflected_color(w: World, comps: crate::computations::Computation, remaining: int) -> RGB
    decreases remaining, 0int,
{
    let m = w.objects[comps.object as int].material;
    if m.reflective == 0 || remaining <= 0 {
        RGB { red: 0, green: 0, blue: 0 }
    } else {
        let reflect_ray = Ray { origin: comps.over_point, direction: comps.reflectv };
        spec_rgb_scale(spec_color_at(w, reflect_ray, remaining - 1), m.reflective as int)
    }
}

/// The color gathered along a refraction bounce: black for an opaque
/// surface, an exhausted bounce budget or total internal reflection,
/// else the color of the transmitted ray scaled by the surface's
/// transparency.
#[verifier::opaque]
pub open spec fn spec_refracted_color(w: World, comps: crate::computations::Computation, remaining: int) -> RGB
    decreases remaining, 1int,
{
    let m = w.objects[comps.object as int].material;
    if m.transparency == 0 || remaining <= 0 {
        RGB { red: 0, green: 0, blue: 0 }
    } else {
        let n_ratio = crate::fixed::spec_div(comps.n1 as int, comps.n2 as int);
        let cos_i = crate::vector::spec_dot(comps.eyev, comps.normalv);
        let sin2_t = crate::fixed::spec_mul(
            crate::fixed::spec_mul(n_ratio, n_ratio),
            crate::fixed::spec_sub(SCALE as int, crate::fixed::spec_mul(cos_i, cos_i)),
        );
        if sin2_t > SCALE as int {
            RGB { red: 0, green: 0, blue: 0 }
        } else {
            let cos_t = crate::fixed::spec_sqrt(crate::fixed::spec_sub(SCALE as int, sin2_t));
            let direction = crate::vector::spec_vec_sub(
                crate::vector::spec_vec_scale(
                    comps.normalv,
                    crate::fixed::spec_sub(crate::fixed::spec_mul(n_ratio, cos_i), cos_t),
                ),
                crate::vector::spec_vec_scale(comps.eyev, n_ratio),
            );
            let refract_ray = Ray { origin: comps.under_point, direction };
            spec_rgb_scale(spec_color_at(w, refract_ray, remaining - 1), m.transparency as int)
        }
    }
}

/// The full shade of one hit: direct Phong lighting with shadowing, plus
/// the reflected and refracted contributions; a surface that both
/// reflects and transmits blends the two by the Schlick reflectance.
#[verifier::opaque]
pub open spec fn spec_shade_hit(w: World, comps: crate::computations::Computation, remaining: int) -> RGB
    decreases remaining, 2int,
{
    let m = w.objects[comps.object as int].material;
    let shadowed = spec_is_shadowed(w, comps.over_point);
    let surface = crate::material::spec_lightning(
        m,
        w.objects[comps.object as int].transform.data,
        w.light->Some_0,
        comps.point,
        comps.eyev,
        comps.normalv,
        shadowed,
    );
    let reflected = spec_reflected_color(w, comps, remaining);
    let refracted = spec_refracted_color(w, comps, remaining);
    if m.reflective > 0 && m.transparency > 0 {
        let reflectance = crate::computations::spec_schlick(comps);
        spec_rgb_add(
            spec_rgb_add(surface, spec_rgb_scale(reflected, reflectance)),
            spec_rgb_scale(refracted, crate::fixed::spec_sub(SCALE as int, reflectance)),
        )
    } else {
        spec_rgb_add(spec_rgb_add(surface, reflected), refracted)
    }
}

/// The color seen along a ray: the shade of the hit with the smallest
/// nonnegative distance, or black when the ray misses everything.
#[verifier::opaque]
pub open spec fn spec_color_at(w: World, ray: Ray, remaining: int) -> RGB
    decreases remaining, 3int,
{
    let hits = spec_world_hits(w, ray);
    if hits.len() == 0 {
        RGB { red: 0, green: 0, blue: 0 }
    } else {
        let sorted = spec_sort_by_t(hits);
        match spec_first_hit(sorted) {
            None => RGB { red: 0, green: 0, blue: 0 },
            Some(h) => spec_shade_hit(
                w,
                crate::computations::spec_prepare_computations(w, h, ray, sorted),
                remaining,
            ),
        }
    }
}

/// A point is in shadow exactly when some intersection toward the light
/// lies at or ahead of the point and strictly closer than the light
/// itself; hits beyond the light do not block it.
pub proof fn lemma_shadowed_iff_blocked(w: World, p: Point)
    requires
        spec_world_wf(w),
        w.light is Some,
    ensures
        ({
            let light = w.light->Some_0;
            let v = spec_point_sub(light.position, p);
            let distance = spec_magnitude(v);
            let shadow_ray = Ray { origin: p, direction: spec_normalize(v) };
            spec_is_shadowed(w, p) <==> exists|j: int|
                0 <= j < spec_world_hits(w, shadow_ray).len() && 0 <= (
                #[trigger] spec_world_hits(w, shadow_ray)[j]).t < distance
        }),
{
    broadcast use vstd::seq_lib::group_to_multiset_ensures;

    reveal(spec_is_shadowed);
    let light = w.light->Some_0;
    let v = spec_point_sub(light.position, p);
    let distance = spec_magnitude(v);
    let shadow_ray = Ray { origin: p, direction: spec_normalize(v) };
    let hits = spec_world_hits(w, shadow_ray);
    let sorted = spec_sort_by_t(hits);
    lemma_sort_by_t(hits);
    lemma_first_hit_least(sorted);
    match spec_first_hit(sorted) {
        Some(h) => {
            if h.t < distance {
                assert(sorted.contains(h));
                assert(sorted.to_multiset().contains(h));
                assert(hits.to_multiset().contains(h));
                assert(hits.contains(h));
                let j = choose|j: int| 0 <= j < hits.len() && hits[j] == h;
                assert(0 <= hits[j].t < distance);
            } else {
                if exists|j: int|
                    0 <= j < hits.len() && 0 <= (#[trigger] hits[j]).t < distance {
                    let j = choose|j: int|
                        0 <= j < hits.len() && 0 <= (#[trigger] hits[j]).t < distance;
                    assert(hits.contains(hits[j]));
                    assert(hits.to_multiset().contains(hits[j]));
                    assert(sorted.to_multiset().contains(hits[j]));
                    assert(sorted.contains(hits[j]));
                    let k = choose|k: int| 0 <= k < sorted.len() && sorted[k] == hits[j];
                    assert(h.t <= sorted[k].t);
                    assert(false);
                }
            }
        },
        None => {
            if exists|j: int| 0 <= j < hits.len() && 0 <= (#[trigger] hits[j]).t < distance {
                let j = choose|j: int|
                    0 <= j < hits.len() && 0 <= (#[trigger] hits[j]).t < distance;
                assert(hits.contains(hits[j]));
                assert(hits.to_multiset().contains(hits[j]));
                assert(sorted.to_multiset().contains(hits[j]));
                assert(sorted.contains(hits[j]));
                let k = choose|k: int| 0 <= k < sorted.len() && sorted[k] == hits[j];
                assert(sorted[k].t < 0);
                assert(false);
            }
        },
    }
}

/// With the bounce budget exhausted, both secondary colors are black for
/// every world and every hit, whatever the material.
pub proof fn lemma_bounces_exhausted(w: World, comps: Computation)
    ensures
        spec_reflected_color(w, comps, 0) == (RGB { red: 0, green: 0, blue: 0 }),
        spec_refracted_color(w, comps, 0) == (RGB { red: 0, green: 0, blue: 0 }),
{
    reveal(spec_reflected_color);
    reveal(spec_refracted_color);
}

/// Place an intersection into an ascending vector, before the first entry
/// with a strictly larger `t`.
fn vec_insert_sorted(v: &mut Vec<Intersection>, x: Intersection)
    requires
        spec_sorted_by_t(old(v)@),
    ensures
        final(v)@ == spec_insert_sorted(x, old(v)@),
{
    let mut pos: usize = 0;
    while pos < v.len() && v[pos].t <= x.t
        invariant
            pos <= v.len(),
            forall|k: int| 0 <= k < pos ==> (#[trigger] v@[k]).t <= x.t,
        decreases v.len() - pos,
    {
        pos = pos + 1;
    }
    v.insert(pos, x);
    proof {
        lemma_insert_position(x, old(v)@, pos as int);
    }
}

/// Inserting at the first position whose entry exceeds `x` matches the
/// recursive definition of sorted insertion.
proof fn lemma_insert_position(x: Intersection, s: Seq<Intersection>, pos: int)
    requires
        0 <= pos <= s.len(),
        forall|k: int| 0 <= k < pos ==> (#[trigger] s[k]).t <= x.t,
        pos < s.len() ==> x.t < s[pos].t,
    ensures
        spec_insert_sorted(x, s) == s.insert(pos, x),
    decreases s.len(),
{
    if s.len() == 0 {
        assert(spec_insert_sorted(x, s) =~= s.insert(0, x));
    } else if x.t < s[0].t {
        assert(pos == 0) by {
            if pos > 0 {
                assert(s[0].t <= x.t);
            }
        }
        assert(spec_insert_sorted(x, s) =~= s.insert(0, x));
    } else {
        let rest = s.drop_first();
        assert(pos >= 1) by {
            if pos == 0 {
                assert(x.t < s[0].t);
            }
        }
        assert(forall|k: int| 0 <= k < pos - 1 ==> (#[trigger] rest[k]).t <= x.t) by {
            assert(forall|k: int| 0 <= k < rest.len() ==> rest[k] == s[k + 1]);
        }
        assert(pos - 1 < rest.len() ==> x.t < rest[pos - 1].t) by {
            assert(forall|k: int| 0 <= k < rest.len() ==> rest[k] == s[k + 1]);
        }
        lemma_insert_position(x, rest, pos - 1);
        assert(spec_insert_sorted(x, s) =~= s.insert(pos, x)) by {
            assert(spec_insert_sorted(x, s) == seq![s[0]] + spec_insert_sorted(x, rest));
            assert(spec_insert_sorted(x, rest) == rest.insert(pos - 1, x));
            assert(forall|k: int|
                0 <= k < s.insert(pos, x).len() ==> s.insert(pos, x)[k] == (seq![s[0]]
                    + rest.insert(pos - 1, x))[k]);
        }
    }
}

/// Sort a batch of intersections into ascending `t` order by stable
/// insertion.
pub fn sort_intersections(xs: Vec<Intersection>) -> (r: Vec<Intersection>)
    ensures
        r@ == spec_sort_by_t(xs@),
        spec_sorted_by_t(r@),
        r@.to_multiset() == xs@.to_multiset(),
{
    let mut out: Vec<Intersection> = Vec::new();
    let mut i: usize = 0;
    while i < xs.len()
        invariant
            i <= xs.len(),
            out@ == spec_sort_by_t(xs@.take(i as int)),
            spec_sorted_by_t(out@),
        decreases xs.len() - i,
    {
        proof {
            lemma_sort_by_t(xs@.take(i as int));
        }
        vec_insert_sorted(&mut out, xs[i]);
        proof {
            assert(xs@.take(i as int + 1).drop_last() =~= xs@.take(i as int));
            assert(xs@.take(i as int + 1).last() == xs@[i as int]);
            lemma_sort_by_t(xs@.take(i as int));
            lemma_insert_sorted(xs@[i as int], spec_sort_by_t(xs@.take(i as int)));
        }
        i = i + 1;
    }
    proof {
        assert(xs@.take(xs@.len() as int) =~= xs@);
        lemma_sort_by_t(xs@);
    }
    out
}

/// The first intersection at or ahead of the ray origin in an ascending
/// batch.
pub fn first_hit(xs: &Vec<Intersection>) -> (r: Option<Intersection>)
    ensures
        r == spec_first_hit(xs@),
{
    let mut i: usize = 0;
    proof {
        assert(xs@.skip(0) =~= xs@);
    }
    while i < xs.len()
        invariant
            i <= xs.len(),
            spec_first_hit(xs@) == spec_first_hit(xs@.skip(i as int)),
        decreases xs.len() - i,
    {
        if xs[i].t >= 0 {
            proof {
                assert(xs@.skip(i as int)[0] == xs@[i as int]);
            }
            return Some(xs[i]);
        }
        proof {
            assert(xs@.skip(i as int)[0] == xs@[i as int]);
            assert(xs@.skip(i as int).drop_first() =~= xs@.skip(i as int + 1));
        }
        i = i + 1;
    }
    proof {
        assert(xs@.skip(xs@.len() as int) =~= Seq::<Intersection>::empty());
    }
    None
}

impl Default for World {
    /// The default test scene: a white light up and to the left, an outer
    /// green-tinted sphere, and an inner sphere at half scale.
    fn default() -> (r: Self)
        ensures
            r.objects.len() == 2,
            r.light == Some(
                PointLight {
                    intensity: RGB { red: SCALE as i64, green: SCALE as i64, blue: SCALE as i64 },
                    position: Point {
                        x: crate::fixed::spec_neg(10 * (SCALE as int)) as i64,
                        y: (10 * (SCALE as int)) as i64,
                        z: crate::fixed::spec_neg(10 * (SCALE as int)) as i64,
                    },
                },
            ),
            r.objects[0].kind is Sphere,
            r.objects[0].material == (Material {
                color: RGB { red: 800_000, green: SCALE as i64, blue: 600_000 },
                diffuse: 700_000,
                specular: 200_000,
                ..crate::material::spec_default_material()
            }),
            r.objects[0].transform.data == crate::matrix::spec_identity(),
            r.objects[1].kind is Sphere,
            r.objects[1].material == crate::material::spec_default_material(),
            r.objects[1].transform.data == crate::matrix::spec_mat_mul(
                crate::transformations::spec_scaling(500_000, 500_000, 500_000),
                crate::matrix::spec_identity(),
            ),
            spec_world_wf(r),
    {
        let mut w = World::new();
        w.set_light(
            PointLight::new(Point::new(-10 * SCALE, 10 * SCALE, -10 * SCALE), RGB::white()),
        );
        let mut s1 = crate::shapes::Shape::sphere();
        let mut m1 = Material::default();
        m1.color = RGB::new(800_000, SCALE, 600_000);
        m1.diffuse = 700_000;
        m1.specular = 200_000;
        s1.set_material(m1);
        w.add_object(s1);
        let mut s2 = crate::shapes::Shape::sphere();
        s2.set_transform(Transformation::new().scaling(500_000, 500_000, 500_000));
        w.add_object(s2);
        w
    }
}

} // verus!
