//! The shape catalogue: spheres, planes, cubes, cylinders, cones and
//! groups.
//!
//! Every variant solves its own closed-form intersection equation in local
//! space and reports its outward local normal; shared logic converts rays
//! and normals between world and object space through the shape's
//! transform.  Shapes are identified by a stable id handed out by the
//! world that owns them; equality of shapes is identity of ids, never
//! structural.

use vstd::prelude::*;

use crate::color::RGB;
use crate::fixed::EPSILON;
use crate::fixed::SCALE;
use crate::fixed::abs_int;
use crate::fixed::fx_abs;
use crate::fixed::fx_add;
use crate::fixed::fx_div;
use crate::fixed::fx_mul;
use crate::fixed::fx_neg;
use crate::fixed::fx_sqrt;
use crate::fixed::fx_sub;
use crate::fixed::lemma_add_nonneg;
use crate::fixed::lemma_square_nonneg;
use crate::fixed::lemma_twice_nonzero;
use crate::fixed::sat64;
use crate::fixed::spec_add;
use crate::fixed::spec_div;
use crate::fixed::spec_mul;
use crate::fixed::spec_neg;
use crate::fixed::spec_sqrt;
use crate::fixed::spec_sub;
use crate::intersection::Intersection;
use crate::material::Material;
use crate::material::spec_default_material;
use crate::matrix::Matrix;
use crate::matrix::spec_determinant;
use crate::matrix::spec_inverse;
use crate::matrix::spec_mat_mul_point;
use crate::matrix::spec_mat_mul_vector;
use crate::matrix::spec_transpose;
use crate::point::Point;
use crate::ray::Ray;
use crate::ray::spec_ray_transform;
use crate::transformations::Transformation;
use crate::vector::Vector;
use crate::vector::spec_normalize;

verus! {

/// The geometry a shape carries, over the fixed set of variants.
#[derive(Clone, Debug)]
pub enum ShapeKind {
    /// The unit sphere centered at the local origin.
    Sphere,
    /// The xz plane through the local origin, normal toward positive y.
    Plane,
    /// The axis-aligned cube spanning -1 to 1 on every axis.
    Cube,
    /// The radius-1 cylinder around the local y axis, optionally cut at
    /// two heights and optionally capped there.  An uncut end carries the
    /// saturated sentinel height.
    Cylinder {
        /// Lower cut height; `i64::MIN` when uncut.
        minimum: i64,
        /// Upper cut height; `i64::MAX` when uncut.
        maximum: i64,
        /// Whether the cut ends are capped.
        closed: bool,
    },
    /// The double-napped cone with its apex at the local origin, around
    /// the y axis, with the same cut-and-cap machinery as the cylinder.
    Cone {
        /// Lower cut height; `i64::MIN` when uncut.
        minimum: i64,
        /// Upper cut height; `i64::MAX` when uncut.
        maximum: i64,
        /// Whether the cut ends are capped.
        closed: bool,
    },
    /// A container of other shapes, referenced by their world ids.  A
    /// group has no surface of its own.
    Group {
        /// World ids of the children.
        children: Vec<usize>,
    },
}

/// A shape: its identity, its local-to-world transformation, its surface
/// material, an optional parent group and its geometry.
#[derive(Clone, Debug)]
pub struct Shape {
    /// Stable id in the owning world; the world assigns it on insertion.
    pub id: usize,
    /// Local-to-world transformation.
    pub transform: Transformation,
    /// Surface material.
    pub material: Material,
    /// World id of the parent group, if the shape sits inside one.
    pub parent: Option<usize>,
    /// The geometry variant.
    pub kind: ShapeKind,
}

/// The vector from the local origin to a point, componentwise the same
/// coordinates.
pub open spec fn spec_as_vector(p: Point) -> Vector {
    Vector { x: p.x, y: p.y, z: p.z }
}

/// Intersections of a local-space ray with the unit sphere: the two roots
/// of the quadratic `|O + tD|^2 = 1`, or nothing when the discriminant is
/// negative.  A ray whose direction has zero squared length cannot be
/// solved and misses.
pub open spec fn spec_sphere_intersections(id: usize, ray: Ray) -> Option<Seq<Intersection>> {
    let s2r = spec_as_vector(ray.origin);
    let a = crate::vector::spec_dot(ray.direction, ray.direction);
    let b = spec_mul(2 * (SCALE as int), crate::vector::spec_dot(ray.direction, s2r));
    let c = spec_sub(crate::vector::spec_dot(s2r, s2r), SCALE as int);
    let disc = spec_sub(spec_mul(b, b), spec_mul(spec_mul(4 * (SCALE as int), a), c));
    if a <= 0 {
        None
    } else if disc < 0 {
        None
    } else {
        let sq = spec_sqrt(disc);
        let two_a = spec_mul(2 * (SCALE as int), a);
        let t1 = spec_div(spec_sub(spec_neg(b), sq), two_a);
        let t2 = spec_div(spec_add(spec_neg(b), sq), two_a);
        Some(
            seq![
                Intersection { t: t1 as i64, object: id },
                Intersection { t: t2 as i64, object: id },
            ],
        )
    }
}

/// Intersections of a local-space ray with the xz plane: no hit when the
/// ray runs parallel to the plane (its y direction is within epsilon of
/// zero), else the single crossing at `t = -origin.y / direction.y`.
pub open spec fn spec_plane_intersections(id: usize, ray: Ray) -> Option<Seq<Intersection>> {
    if abs_int(ray.direction.y as int) < EPSILON as int {
        None
    } else {
        Some(
            seq![
                Intersection {
                    t: spec_div(spec_neg(ray.origin.y as int), ray.direction.y as int) as i64,
                    object: id,
                },
            ],
        )
    }
}

/// The entry and exit times of a ray coordinate across one slab of the
/// cube.  A direction of exactly zero means the ray runs parallel to the
/// slab: the interval is everything when the origin coordinate lies
/// inside the slab and empty (inverted) when it lies outside.
pub open spec fn spec_check_axis(origin: int, direction: int) -> (int, int) {
    if direction == 0 {
        if -(SCALE as int) <= origin <= SCALE as int {
            (i64::MIN as int, i64::MAX as int)
        } else {
            (i64::MAX as int, i64::MIN as int)
        }
    } else {
        let tmin = spec_div(spec_sub(spec_neg(SCALE as int), origin), direction);
        let tmax = spec_div(spec_sub(SCALE as int, origin), direction);
        if tmin > tmax {
            (tmax, tmin)
        } else {
            (tmin, tmax)
        }
    }
}

/// The larger of two scalars.
pub open spec fn spec_max(a: int, b: int) -> int {
    if a >= b {
        a
    } else {
        b
    }
}

/// The smaller of two scalars.
pub open spec fn spec_min(a: int, b: int) -> int {
    if a <= b {
        a
    } else {
        b
    }
}

/// Intersections of a local-space ray with the unit cube, by the per-axis
/// slab test: overall entry is the largest per-axis entry, overall exit
/// the smallest per-axis exit, and the ray hits exactly when entry does
/// not exceed exit.
pub open spec fn spec_cube_intersections(id: usize, ray: Ray) -> Option<Seq<Intersection>> {
    let x = spec_check_axis(ray.origin.x as int, ray.direction.x as int);
    let y = spec_check_axis(ray.origin.y as int, ray.direction.y as int);
    let z = spec_check_axis(ray.origin.z as int, ray.direction.z as int);
    let tmin = spec_max(spec_max(x.0, y.0), z.0);
    let tmax = spec_min(spec_min(x.1, y.1), z.1);
    if tmin > tmax {
        None
    } else {
        Some(
            seq![
                Intersection { t: tmin as i64, object: id },
                Intersection { t: tmax as i64, object: id },
            ],
        )
    }
}

/// Whether the cylinder-cap crossing at `t` lies within radius 1 of the
/// y axis.
pub open spec fn spec_cyl_cap_hit(ray: Ray, t: int) -> bool {
    let x = spec_add(ray.origin.x as int, spec_mul(t, ray.direction.x as int));
    let z = spec_add(ray.origin.z as int, spec_mul(t, ray.direction.z as int));
    spec_add(spec_mul(x, x), spec_mul(z, z)) <= SCALE as int
}

/// Cap crossings of a cylinder: none unless the cylinder is closed and
/// the ray can reach the cap planes; else the crossings with the planes
/// at the two cut heights, kept when they fall within the cap radius.
pub open spec fn spec_cyl_caps(
    id: usize,
    minimum: int,
    maximum: int,
    closed: bool,
    ray: Ray,
) -> Seq<Intersection> {
    if !closed || abs_int(ray.direction.y as int) < EPSILON as int {
        Seq::empty()
    } else {
        let tl = spec_div(spec_sub(minimum, ray.origin.y as int), ray.direction.y as int);
        let tu = spec_div(spec_sub(maximum, ray.origin.y as int), ray.direction.y as int);
        let lower: Seq<Intersection> = if spec_cyl_cap_hit(ray, tl) {
            seq![Intersection { t: tl as i64, object: id }]
        } else {
            Seq::empty()
        };
        let upper: Seq<Intersection> = if spec_cyl_cap_hit(ray, tu) {
            seq![Intersection { t: tu as i64, object: id }]
        } else {
            Seq::empty()
        };
        lower + upper
    }
}

/// Wall crossings of a cylinder: the roots of the quadratic on x and z
/// only, each kept when its height falls strictly between the cuts.
/// When the direction has no x or z component the walls cannot be hit and
/// only caps matter.
pub open spec fn spec_cylinder_intersections(
    id: usize,
    minimum: int,
    maximum: int,
    closed: bool,
    ray: Ray,
) -> Option<Seq<Intersection>> {
    let dx = ray.direction.x as int;
    let dy = ray.direction.y as int;
    let dz = ray.direction.z as int;
    let ox = ray.origin.x as int;
    let oy = ray.origin.y as int;
    let oz = ray.origin.z as int;
    let a = spec_add(spec_mul(dx, dx), spec_mul(dz, dz));
    if a < EPSILON as int {
        let caps = spec_cyl_caps(id, minimum, maximum, closed, ray);
        if caps.len() == 0 {
            None
        } else {
            Some(caps)
        }
    } else {
        let b = spec_add(spec_mul(spec_mul(2 * (SCALE as int), ox), dx), spec_mul(spec_mul(2 * (SCALE as int), oz), dz));
        let c = spec_sub(spec_add(spec_mul(ox, ox), spec_mul(oz, oz)), SCALE as int);
        let disc = spec_sub(spec_mul(b, b), spec_mul(spec_mul(4 * (SCALE as int), a), c));
        if disc < 0 {
            None
        } else {
            let sq = spec_sqrt(disc);
            let two_a = spec_mul(2 * (SCALE as int), a);
            let ta = spec_div(spec_sub(spec_neg(b), sq), two_a);
            let tb = spec_div(spec_add(spec_neg(b), sq), two_a);
            let t0 = spec_min(ta, tb);
            let t1 = spec_max(ta, tb);
            let y0 = spec_add(oy, spec_mul(t0, dy));
            let w0: Seq<Intersection> = if minimum < y0 < maximum {
                seq![Intersection { t: t0 as i64, object: id }]
            } else {
                Seq::empty()
            };
            let y1 = spec_add(oy, spec_mul(t1, dy));
            let w1: Seq<Intersection> = if minimum < y1 < maximum {
                seq![Intersection { t: t1 as i64, object: id }]
            } else {
                Seq::empty()
            };
            let xs = w0 + w1 + spec_cyl_caps(id, minimum, maximum, closed, ray);
            if xs.len() == 0 {
                None
            } else {
                Some(xs)
            }
        }
    }
}

/// Whether the cone-cap crossing at `t` lies within the cap radius,
/// which at height `y` equals `|y|`.
pub open spec fn spec_cone_cap_hit(ray: Ray, t: int) -> bool {
    let x = spec_add(ray.origin.x as int, spec_mul(t, ray.direction.x as int));
    let y = spec_add(ray.origin.y as int, spec_mul(t, ray.direction.y as int));
    let z = spec_add(ray.origin.z as int, spec_mul(t, ray.direction.z as int));
    spec_add(spec_mul(x, x), spec_mul(z, z)) <= sat64(abs_int(y))
}

/// Cap crossings of a cone, with the radius growing as `|y|`.
pub open spec fn spec_cone_caps(
    id: usize,
    minimum: int,
    maximum: int,
    closed: bool,
    ray: Ray,
) -> Seq<Intersection> {
    if !closed || abs_int(ray.direction.y as int) < EPSILON as int {
        Seq::empty()
    } else {
        let tl = spec_div(spec_sub(minimum, ray.origin.y as int), ray.direction.y as int);
        let tu = spec_div(spec_sub(maximum, ray.origin.y as int), ray.direction.y as int);
        let lower: Seq<Intersection> = if spec_cone_cap_hit(ray, tl) {
            seq![Intersection { t: tl as i64, object: id }]
        } else {
            Seq::empty()
        };
        let upper: Seq<Intersection> = if spec_cone_cap_hit(ray, tu) {
            seq![Intersection { t: tu as i64, object: id }]
        } else {
            Seq::empty()
        };
        lower + upper
    }
}

/// Intersections of a local-space ray with the double-napped cone.  When
/// the quadratic degenerates (its leading coefficient is within epsilon
/// of zero) a single linear root stands in for the walls; when both
/// leading coefficients vanish the ray misses outright.
pub open spec fn spec_cone_intersections(
    id: usize,
    minimum: int,
    maximum: int,
    closed: bool,
    ray: Ray,
) -> Option<Seq<Intersection>> {
    let dx = ray.direction.x as int;
    let dy = ray.direction.y as int;
    let dz = ray.direction.z as int;
    let ox = ray.origin.x as int;
    let oy = ray.origin.y as int;
    let oz = ray.origin.z as int;
    let a = spec_add(spec_sub(spec_mul(dx, dx), spec_mul(dy, dy)), spec_mul(dz, dz));
    let b = spec_add(
        spec_sub(spec_mul(spec_mul(2 * (SCALE as int), ox), dx), spec_mul(spec_mul(2 * (SCALE as int), oy), dy)),
        spec_mul(spec_mul(2 * (SCALE as int), oz), dz),
    );
    let c = spec_add(spec_sub(spec_mul(ox, ox), spec_mul(oy, oy)), spec_mul(oz, oz));
    if abs_int(a) < EPSILON as int && abs_int(b) < EPSILON as int {
        None
    } else {
        let linear: Seq<Intersection> = if abs_int(a) < EPSILON as int && b != 0 {
            seq![
                Intersection {
                    t: spec_div(spec_neg(c), spec_mul(2 * (SCALE as int), b)) as i64,
                    object: id,
                },
            ]
        } else {
            Seq::empty()
        };
        let disc = spec_sub(spec_mul(b, b), spec_mul(spec_mul(4 * (SCALE as int), a), c));
        if disc < 0 {
            None
        } else {
            let walls: Seq<Intersection> = if abs_int(a) < EPSILON as int {
                Seq::empty()
            } else {
                let sq = spec_sqrt(disc);
                let two_a = spec_mul(2 * (SCALE as int), a);
                let ta = spec_div(spec_sub(spec_neg(b), sq), two_a);
                let tb = spec_div(spec_add(spec_neg(b), sq), two_a);
                let t0 = spec_min(ta, tb);
                let t1 = spec_max(ta, tb);
                let y0 = spec_add(oy, spec_mul(t0, dy));
                let w0: Seq<Intersection> = if minimum < y0 < maximum {
                    seq![Intersection { t: t0 as i64, object: id }]
                } else {
                    Seq::empty()
                };
                let y1 = spec_add(oy, spec_mul(t1, dy));
                let w1: Seq<Intersection> = if minimum < y1 < maximum {
                    seq![Intersection { t: t1 as i64, object: id }]
                } else {
                    Seq::empty()
                };
                w0 + w1
            };
            let xs = linear + walls + spec_cone_caps(id, minimum, maximum, closed, ray);
            if xs.len() == 0 {
                None
            } else {
                Some(xs)
            }
        }
    }
}

/// Intersections of a local-space ray with a primitive shape.  Groups
/// have no local surface: their intersections come from their children
/// and are computed by the world.
pub open spec fn spec_local_intersect(s: Shape, ray: Ray) -> Option<Seq<Intersection>> {
    match s.kind {
        ShapeKind::Sphere => spec_sphere_intersections(s.id, ray),
        ShapeKind::Plane => spec_plane_intersections(s.id, ray),
        ShapeKind::Cube => spec_cube_intersections(s.id, ray),
        ShapeKind::Cylinder { minimum, maximum, closed } => spec_cylinder_intersections(
            s.id,
            minimum as int,
            maximum as int,
            closed,
            ray,
        ),
        ShapeKind::Cone { minimum, maximum, closed } => spec_cone_intersections(
            s.id,
            minimum as int,
            maximum as int,
            closed,
            ray,
        ),
        ShapeKind::Group { .. } => None,
    }
}

/// The outward local-space normal of a primitive shape at a local point.
/// For a group the value is immaterial: calling it is a programming
/// error, ruled out by precondition.
pub open spec fn spec_local_normal(s: Shape, p: Point) -> Vector {
    match s.kind {
        ShapeKind::Sphere => spec_as_vector(p),
        ShapeKind::Plane => Vector { x: 0, y: SCALE as i64, z: 0 },
        ShapeKind::Cube => {
            let ax = sat64(abs_int(p.x as int));
            let ay = sat64(abs_int(p.y as int));
            let az = sat64(abs_int(p.z as int));
            let maxc = spec_max(spec_max(ax, ay), az);
            if maxc - ax < EPSILON as int {
                Vector { x: p.x, y: 0, z: 0 }
            } else if maxc - ay < EPSILON as int {
                Vector { x: 0, y: p.y, z: 0 }
            } else {
                Vector { x: 0, y: 0, z: p.z }
            }
        },
        ShapeKind::Cylinder { minimum, maximum, .. } => {
            let dist = spec_add(spec_mul(p.x as int, p.x as int), spec_mul(p.z as int, p.z as int));
            if dist < SCALE as int && p.y as int >= spec_sub(maximum as int, EPSILON as int) {
                Vector { x: 0, y: SCALE as i64, z: 0 }
            } else if dist < SCALE as int && p.y as int <= spec_add(minimum as int, EPSILON as int) {
                Vector { x: 0, y: spec_neg(SCALE as int) as i64, z: 0 }
            } else {
                Vector { x: p.x, y: 0, z: p.z }
            }
        },
        ShapeKind::Cone { minimum, maximum, .. } => {
            let dist = spec_add(spec_mul(p.x as int, p.x as int), spec_mul(p.z as int, p.z as int));
            if dist < SCALE as int && p.y as int >= spec_sub(maximum as int, EPSILON as int) {
                Vector { x: 0, y: SCALE as i64, z: 0 }
            } else if dist < SCALE as int && p.y as int <= spec_add(minimum as int, EPSILON as int) {
                Vector { x: 0, y: spec_neg(SCALE as int) as i64, z: 0 }
            } else if p.y > 0 {
                Vector { x: p.x, y: spec_neg(spec_sqrt(dist)) as i64, z: p.z }
            } else {
                Vector { x: p.x, y: spec_sqrt(dist) as i64, z: p.z }
            }
        },
        ShapeKind::Group { .. } => Vector { x: 0, y: 0, z: 0 },
    }
}

/// The not-yet-normalized world normal of a shape considered on its own,
/// without a parent chain: the local normal carried back through the
/// inverse transpose of the shape's transform.
pub open spec fn spec_world_normal_raw(s: Shape, world_point: Point) -> Vector {
    let inv = spec_inverse(s.transform.data);
    let local_point = spec_mat_mul_point(inv, world_point);
    let local_normal = spec_local_normal(s, local_point);
    spec_mat_mul_vector(spec_transpose(inv), local_normal)
}

impl Shape {
    /// A unit sphere at the origin with the default material.
    pub fn sphere() -> (r: Self)
        ensures
            r.kind is Sphere,
            r.id == 0,
            r.parent is None,
            r.transform.data == crate::matrix::spec_identity(),
            r.material == spec_default_material(),
    {
        Self {
            id: 0,
            transform: Transformation::new(),
            material: Material::default(),
            parent: None,
            kind: ShapeKind::Sphere,
        }
    }

    /// A glass sphere: fully transparent, refractive index 1.5.
    pub fn glass_sphere() -> (r: Self)
        ensures
            r.kind is Sphere,
            r.id == 0,
            r.parent is None,
            r.transform.data == crate::matrix::spec_identity(),
            r.material == (Material {
                transparency: SCALE as i64,
                refractive_index: 1_500_000,
                ..spec_default_material()
            }),
    {
        let mut material = Material::default();
        material.transparency = SCALE;
        material.refractive_index = 1_500_000;
        Self {
            id: 0,
            transform: Transformation::new(),
            material,
            parent: None,
            kind: ShapeKind::Sphere,
        }
    }

    /// An xz plane through the origin with the default material.
    pub fn plane() -> (r: Self)
        ensures
            r.kind is Plane,
            r.id == 0,
            r.parent is None,
            r.transform.data == crate::matrix::spec_identity(),
            r.material == spec_default_material(),
    {
        Self {
            id: 0,
            transform: Transformation::new(),
            material: Material::default(),
            parent: None,
            kind: ShapeKind::Plane,
        }
    }

    /// A unit cube at the origin with the default material.
    pub fn cube() -> (r: Self)
        ensures
            r.kind is Cube,
            r.id == 0,
            r.parent is None,
            r.transform.data == crate::matrix::spec_identity(),
            r.material == spec_default_material(),
    {
        Self {
            id: 0,
            transform: Transformation::new(),
            material: Material::default(),
            parent: None,
            kind: ShapeKind::Cube,
        }
    }

    /// An unbounded open cylinder around the y axis with the default
    /// material.
    pub fn cylinder() -> (r: Self)
        ensures
            r.kind == (ShapeKind::Cylinder { minimum: i64::MIN, maximum: i64::MAX, closed: false }),
            r.id == 0,
            r.parent is None,
            r.transform.data == crate::matrix::spec_identity(),
            r.material == spec_default_material(),
    {
        Self {
            id: 0,
            transform: Transformation::new(),
            material: Material::default(),
            parent: None,
            kind: ShapeKind::Cylinder { minimum: i64::MIN, maximum: i64::MAX, closed: false },
        }
    }

    /// An unbounded open double cone around the y axis with the default
    /// material.
    pub fn cone() -> (r: Self)
        ensures
            r.kind == (ShapeKind::Cone { minimum: i64::MIN, maximum: i64::MAX, closed: false }),
            r.id == 0,
            r.parent is None,
            r.transform.data == crate::matrix::spec_identity(),
            r.material == spec_default_material(),
    {
        Self {
            id: 0,
            transform: Transformation::new(),
            material: Material::default(),
            parent: None,
            kind: ShapeKind::Cone { minimum: i64::MIN, maximum: i64::MAX, closed: false },
        }
    }

    /// An empty group with the default material.
    pub fn group() -> (r: Self)
        ensures
            r.kind matches ShapeKind::Group { children } && children@ == Seq::<usize>::empty(),
            r.id == 0,
            r.parent is None,
            r.transform.data == crate::matrix::spec_identity(),
            r.material == spec_default_material(),
    {
        Self {
            id: 0,
            transform: Transformation::new(),
            material: Material::default(),
            parent: None,
            kind: ShapeKind::Group { children: Vec::new() },
        }
    }

    /// The shape's material.
    pub fn get_material(&self) -> (r: &Material)
        ensures
            r == &self.material,
    {
        &self.material
    }

    /// Replace the shape's material.
    pub fn set_material(&mut self, m: Material)
        ensures
            *final(self) == (Shape { material: m, ..*old(self) }),
    {
        self.material = m;
    }

    /// Replace the material's base color.
    pub fn set_color(&mut self, color: RGB)
        ensures
            *final(self) == (Shape {
                material: Material { color, ..old(self).material },
                ..*old(self)
            }),
    {
        self.material.color = color;
    }

    /// The shape's transformation.
    pub fn get_transform(&self) -> (r: Transformation)
        ensures
            r == self.transform,
    {
        self.transform
    }

    /// Replace the shape's transformation.
    pub fn set_transform(&mut self, t: Transformation)
        ensures
            *final(self) == (Shape { transform: t, ..*old(self) }),
    {
        self.transform = t;
    }

    /// The shape's parent group, if any.
    pub fn parent_id(&self) -> (r: Option<usize>)
        ensures
            r == self.parent,
    {
        self.parent
    }

    /// Put the shape under a parent group.
    pub fn set_parent_id(&mut self, id: usize)
        ensures
            *final(self) == (Shape { parent: Some(id), ..*old(self) }),
    {
        self.parent = Some(id);
    }

    /// Cut a cylinder or cone at two heights.
    pub fn set_cuts(&mut self, min: i64, max: i64)
        requires
            old(self).kind is Cylinder || old(self).kind is Cone,
        ensures
            old(self).kind matches ShapeKind::Cylinder { closed, .. } ==> *final(self) == (Shape {
                kind: ShapeKind::Cylinder { minimum: min, maximum: max, closed },
                ..*old(self)
            }),
            old(self).kind matches ShapeKind::Cone { closed, .. } ==> *final(self) == (Shape {
                kind: ShapeKind::Cone { minimum: min, maximum: max, closed },
                ..*old(self)
            }),
    {
        match &self.kind {
            ShapeKind::Cylinder { closed, .. } => {
                let c: bool = *closed;
                self.kind = ShapeKind::Cylinder { minimum: min, maximum: max, closed: c };
            },
            ShapeKind::Cone { closed, .. } => {
                let c: bool = *closed;
                self.kind = ShapeKind::Cone { minimum: min, maximum: max, closed: c };
            },
            _ => {
                proof {
                    assert(false);
                }
            },
        }
    }

    /// Cap or uncap the cut ends of a cylinder or cone.
    pub fn set_closed(&mut self, is_closed: bool)
        requires
            old(self).kind is Cylinder || old(self).kind is Cone,
        ensures
            old(self).kind matches ShapeKind::Cylinder { minimum, maximum, .. } ==> *final(self)
                == (Shape {
                kind: ShapeKind::Cylinder { minimum, maximum, closed: is_closed },
                ..*old(self)
            }),
            old(self).kind matches ShapeKind::Cone { minimum, maximum, .. } ==> *final(self) == (
            Shape {
                kind: ShapeKind::Cone { minimum, maximum, closed: is_closed },
                ..*old(self)
            }),
    {
        match &self.kind {
            ShapeKind::Cylinder { minimum, maximum, .. } => {
                let mn: i64 = *minimum;
                let mx: i64 = *maximum;
                self.kind = ShapeKind::Cylinder { minimum: mn, maximum: mx, closed: is_closed };
            },
            ShapeKind::Cone { minimum, maximum, .. } => {
                let mn: i64 = *minimum;
                let mx: i64 = *maximum;
                self.kind = ShapeKind::Cone { minimum: mn, maximum: mx, closed: is_closed };
            },
            _ => {
                proof {
                    assert(false);
                }
            },
        }
    }

    /// Intersections of a local-space ray with this primitive shape.
    pub fn local_intersect(&self, ray: &Ray) -> (r: Option<Vec<Intersection>>)
        requires
            !(self.kind is Group),
        ensures
            r is Some <==> spec_local_intersect(*self, *ray) is Some,
            r matches Some(v) ==> spec_local_intersect(*self, *ray) matches Some(s) && v@ == s,
    {
        match &self.kind {
            ShapeKind::Sphere => self.sphere_intersect(ray),
            ShapeKind::Plane => self.plane_intersect(ray),
            ShapeKind::Cube => self.cube_intersect(ray),
            ShapeKind::Cylinder { minimum, maximum, closed } => {
                let mn: i64 = *minimum;
                let mx: i64 = *maximum;
                let cl: bool = *closed;
                self.cylinder_intersect(mn, mx, cl, ray)
            },
            ShapeKind::Cone { minimum, maximum, closed } => {
                let mn: i64 = *minimum;
                let mx: i64 = *maximum;
                let cl: bool = *closed;
                self.cone_intersect(mn, mx, cl, ray)
            },
            ShapeKind::Group { .. } => {
                proof {
                    assert(false);
                }
                None
            },
        }
    }

    /// Solve the unit-sphere quadratic for a local-space ray.
    fn sphere_intersect(&self, ray: &Ray) -> (r: Option<Vec<Intersection>>)
        ensures
            r is Some <==> spec_sphere_intersections(self.id, *ray) is Some,
            r matches Some(v) ==> spec_sphere_intersections(self.id, *ray) matches Some(s) && v@
                == s,
    {
        let s2r = Vector { x: ray.origin.x, y: ray.origin.y, z: ray.origin.z };
        let a: i64 = ray.direction.dot(ray.direction);
        let b: i64 = fx_mul(2 * SCALE, ray.direction.dot(s2r));
        let c: i64 = fx_sub(s2r.dot(s2r), SCALE);
        let disc: i64 = fx_sub(fx_mul(b, b), fx_mul(fx_mul(4 * SCALE, a), c));
        if a <= 0 {
            None
        } else if disc < 0 {
            None
        } else {
            let sq: i64 = fx_sqrt(disc);
            proof {
                lemma_twice_nonzero(a as int);
            }
            let two_a: i64 = fx_mul(2 * SCALE, a);
            let t1: i64 = fx_div(fx_sub(fx_neg(b), sq), two_a);
            let t2: i64 = fx_div(fx_add(fx_neg(b), sq), two_a);
            let v: Vec<Intersection> = vec![
                Intersection { t: t1, object: self.id },
                Intersection { t: t2, object: self.id },
            ];
            proof {
                let s = spec_sphere_intersections(self.id, *ray)->Some_0;
                assert(v@ =~= s);
            }
            Some(v)
        }
    }

    /// Intersect a local-space ray with the xz plane.
    fn plane_intersect(&self, ray: &Ray) -> (r: Option<Vec<Intersection>>)
        ensures
            r is Some <==> spec_plane_intersections(self.id, *ray) is Some,
            r matches Some(v) ==> spec_plane_intersections(self.id, *ray) matches Some(s) && v@
                == s,
    {
        if fx_abs(ray.direction.y) < EPSILON {
            None
        } else {
            let t: i64 = fx_div(fx_neg(ray.origin.y), ray.direction.y);
            let v: Vec<Intersection> = vec![Intersection { t, object: self.id }];
            proof {
                let s = spec_plane_intersections(self.id, *ray)->Some_0;
                assert(v@ =~= s);
            }
            Some(v)
        }
    }

    /// Slab-test a local-space ray against the unit cube.
    fn cube_intersect(&self, ray: &Ray) -> (r: Option<Vec<Intersection>>)
        ensures
            r is Some <==> spec_cube_intersections(self.id, *ray) is Some,
            r matches Some(v) ==> spec_cube_intersections(self.id, *ray) matches Some(s) && v@
                == s,
    {
        let x = check_axis(ray.origin.x, ray.direction.x);
        let y = check_axis(ray.origin.y, ray.direction.y);
        let z = check_axis(ray.origin.z, ray.direction.z);
        let tmin: i64 = max_i64(max_i64(x.0, y.0), z.0);
        let tmax: i64 = min_i64(min_i64(x.1, y.1), z.1);
        if tmin > tmax {
            None
        } else {
            let v: Vec<Intersection> = vec![
                Intersection { t: tmin, object: self.id },
                Intersection { t: tmax, object: self.id },
            ];
            proof {
                let s = spec_cube_intersections(self.id, *ray)->Some_0;
                assert(v@ =~= s);
            }
            Some(v)
        }
    }

    /// Cap crossings of a closed cylinder for a local-space ray.
    fn cylinder_caps(&self, minimum: i64, maximum: i64, closed: bool, ray: &Ray) -> (r: Vec<
        Intersection,
    >)
        ensures
            r@ == spec_cyl_caps(self.id, minimum as int, maximum as int, closed, *ray),
    {
        let mut xs: Vec<Intersection> = Vec::new();
        if !closed || fx_abs(ray.direction.y) < EPSILON {
            proof {
                assert(xs@ =~= spec_cyl_caps(
                    self.id,
                    minimum as int,
                    maximum as int,
                    closed,
                    *ray,
                ));
            }
            return xs;
        }
        let tl: i64 = fx_div(fx_sub(minimum, ray.origin.y), ray.direction.y);
        if cyl_check_cap(ray, tl) {
            xs.push(Intersection { t: tl, object: self.id });
        }
        let tu: i64 = fx_div(fx_sub(maximum, ray.origin.y), ray.direction.y);
        if cyl_check_cap(ray, tu) {
            xs.push(Intersection { t: tu, object: self.id });
        }
        proof {
            assert(xs@ =~= spec_cyl_caps(self.id, minimum as int, maximum as int, closed, *ray));
        }
        xs
    }

    /// Solve the cylinder quadratic for a local-space ray and filter the
    /// roots by the cut heights.
    fn cylinder_intersect(&self, minimum: i64, maximum: i64, closed: bool, ray: &Ray) -> (r:
        Option<Vec<Intersection>>)
        ensures
            ({
                let s = spec_cylinder_intersections(
                    self.id,
                    minimum as int,
                    maximum as int,
                    closed,
                    *ray,
                );
                &&& r is Some <==> s is Some
                &&& r matches Some(v) ==> s matches Some(sv) && v@ == sv
            }),
    {
        let a: i64 = fx_add(
            fx_mul(ray.direction.x, ray.direction.x),
            fx_mul(ray.direction.z, ray.direction.z),
        );
        proof {
            lemma_square_nonneg(ray.direction.x as int);
            lemma_square_nonneg(ray.direction.z as int);
            lemma_add_nonneg(
                spec_mul(ray.direction.x as int, ray.direction.x as int),
                spec_mul(ray.direction.z as int, ray.direction.z as int),
            );
        }
        if a < EPSILON {
            let caps = self.cylinder_caps(minimum, maximum, closed, ray);
            if caps.len() == 0 {
                None
            } else {
                Some(caps)
            }
        } else {
            let b: i64 = fx_add(
                fx_mul(fx_mul(2 * SCALE, ray.origin.x), ray.direction.x),
                fx_mul(fx_mul(2 * SCALE, ray.origin.z), ray.direction.z),
            );
            let c: i64 = fx_sub(
                fx_add(fx_mul(ray.origin.x, ray.origin.x), fx_mul(ray.origin.z, ray.origin.z)),
                SCALE,
            );
            let disc: i64 = fx_sub(fx_mul(b, b), fx_mul(fx_mul(4 * SCALE, a), c));
            if disc < 0 {
                None
            } else {
                let sq: i64 = fx_sqrt(disc);
                proof {
                    lemma_twice_nonzero(a as int);
                }
                let two_a: i64 = fx_mul(2 * SCALE, a);
                let ta: i64 = fx_div(fx_sub(fx_neg(b), sq), two_a);
                let tb: i64 = fx_div(fx_add(fx_neg(b), sq), two_a);
                let t0: i64 = min_i64(ta, tb);
                let t1: i64 = max_i64(ta, tb);
                let mut xs: Vec<Intersection> = Vec::new();
                let y0: i64 = fx_add(ray.origin.y, fx_mul(t0, ray.direction.y));
                if minimum < y0 && y0 < maximum {
                    xs.push(Intersection { t: t0, object: self.id });
                }
                let y1: i64 = fx_add(ray.origin.y, fx_mul(t1, ray.direction.y));
                if minimum < y1 && y1 < maximum {
                    xs.push(Intersection { t: t1, object: self.id });
                }
                let mut caps = self.cylinder_caps(minimum, maximum, closed, ray);
                xs.append(&mut caps);
                proof {
                    let s = spec_cylinder_intersections(
                        self.id,
                        minimum as int,
                        maximum as int,
                        closed,
                        *ray,
                    );
                    assert(xs@ =~= s->Some_0 || s is None);
                }
                if xs.len() == 0 {
                    None
                } else {
                    Some(xs)
                }
            }
        }
    }

    /// Cap crossings of a closed cone for a local-space ray.
    fn cone_caps(&self, minimum: i64, maximum: i64, closed: bool, ray: &Ray) -> (r: Vec<
        Intersection,
    >)
        ensures
            r@ == spec_cone_caps(self.id, minimum as int, maximum as int, closed, *ray),
    {
        let mut xs: Vec<Intersection> = Vec::new();
        if !closed || fx_abs(ray.direction.y) < EPSILON {
            proof {
                assert(xs@ =~= spec_cone_caps(
                    self.id,
                    minimum as int,
                    maximum as int,
                    closed,
                    *ray,
                ));
            }
            return xs;
        }
        let tl: i64 = fx_div(fx_sub(minimum, ray.origin.y), ray.direction.y);
        if cone_check_cap(ray, tl) {
            xs.push(Intersection { t: tl, object: self.id });
        }
        let tu: i64 = fx_div(fx_sub(maximum, ray.origin.y), ray.direction.y);
        if cone_check_cap(ray, tu) {
            xs.push(Intersection { t: tu, object: self.id });
        }
        proof {
            assert(xs@ =~= spec_cone_caps(self.id, minimum as int, maximum as int, closed, *ray));
        }
        xs
    }

    /// Solve the cone quadratic (or its linear degeneration) for a
    /// local-space ray and filter the roots by the cut heights.
    fn cone_intersect(&self, minimum: i64, maximum: i64, closed: bool, ray: &Ray) -> (r: Option<
        Vec<Intersection>,
    >)
        ensures
            ({
                let s = spec_cone_intersections(
                    self.id,
                    minimum as int,
                    maximum as int,
                    closed,
                    *ray,
                );
                &&& r is Some <==> s is Some
                &&& r matches Some(v) ==> s matches Some(sv) && v@ == sv
            }),
    {
        let a: i64 = fx_add(
            fx_sub(
                fx_mul(ray.direction.x, ray.direction.x),
                fx_mul(ray.direction.y, ray.direction.y),
            ),
            fx_mul(ray.direction.z, ray.direction.z),
        );
        let b: i64 = fx_add(
            fx_sub(
                fx_mul(fx_mul(2 * SCALE, ray.origin.x), ray.direction.x),
                fx_mul(fx_mul(2 * SCALE, ray.origin.y), ray.direction.y),
            ),
            fx_mul(fx_mul(2 * SCALE, ray.origin.z), ray.direction.z),
        );
        let c: i64 = fx_add(
            fx_sub(fx_mul(ray.origin.x, ray.origin.x), fx_mul(ray.origin.y, ray.origin.y)),
            fx_mul(ray.origin.z, ray.origin.z),
        );
        let a_small: bool = fx_abs(a) < EPSILON;
        if a_small && fx_abs(b) < EPSILON {
            return None;
        }
        let mut xs: Vec<Intersection> = Vec::new();
        if a_small && b != 0 {
            proof {
                lemma_twice_nonzero(b as int);
            }
            let t: i64 = fx_div(fx_neg(c), fx_mul(2 * SCALE, b));
            xs.push(Intersection { t, object: self.id });
        }
        let disc: i64 = fx_sub(fx_mul(b, b), fx_mul(fx_mul(4 * SCALE, a), c));
        if disc < 0 {
            return None;
        }
        if !a_small {
            let sq: i64 = fx_sqrt(disc);
            proof {
                lemma_twice_nonzero(a as int);
            }
            let two_a: i64 = fx_mul(2 * SCALE, a);
            let ta: i64 = fx_div(fx_sub(fx_neg(b), sq), two_a);
            let tb: i64 = fx_div(fx_add(fx_neg(b), sq), two_a);
            let t0: i64 = min_i64(ta, tb);
            let t1: i64 = max_i64(ta, tb);
            let y0: i64 = fx_add(ray.origin.y, fx_mul(t0, ray.direction.y));
            if minimum < y0 && y0 < maximum {
                xs.push(Intersection { t: t0, object: self.id });
            }
            let y1: i64 = fx_add(ray.origin.y, fx_mul(t1, ray.direction.y));
            if minimum < y1 && y1 < maximum {
                xs.push(Intersection { t: t1, object: self.id });
            }
        }
        let mut caps = self.cone_caps(minimum, maximum, closed, ray);
        xs.append(&mut caps);
        proof {
            let s = spec_cone_intersections(self.id, minimum as int, maximum as int, closed, *ray);
            assert(xs@ =~= s->Some_0 || s is None);
        }
        if xs.len() == 0 {
            None
        } else {
            Some(xs)
        }
    }

    /// The outward local-space normal at a local point.
    pub fn local_normal_at(&self, point: Point) -> (r: Vector)
        requires
            !(self.kind is Group),
        ensures
            r == spec_local_normal(*self, point),
    {
        match &self.kind {
            ShapeKind::Sphere => Vector { x: point.x, y: point.y, z: point.z },
            ShapeKind::Plane => Vector { x: 0, y: SCALE, z: 0 },
            ShapeKind::Cube => {
                let ax: i64 = fx_abs(point.x);
                let ay: i64 = fx_abs(point.y);
                let az: i64 = fx_abs(point.z);
                let maxc: i64 = max_i64(max_i64(ax, ay), az);
                if maxc - ax < EPSILON {
                    Vector { x: point.x, y: 0, z: 0 }
                } else if maxc - ay < EPSILON {
                    Vector { x: 0, y: point.y, z: 0 }
                } else {
                    Vector { x: 0, y: 0, z: point.z }
                }
            },
            ShapeKind::Cylinder { minimum, maximum, .. } => {
                let dist: i64 = fx_add(fx_mul(point.x, point.x), fx_mul(point.z, point.z));
                if dist < SCALE && point.y >= fx_sub(*maximum, EPSILON) {
                    Vector { x: 0, y: SCALE, z: 0 }
                } else if dist < SCALE && point.y <= fx_add(*minimum, EPSILON) {
                    Vector { x: 0, y: -SCALE, z: 0 }
                } else {
                    Vector { x: point.x, y: 0, z: point.z }
                }
            },
            ShapeKind::Cone { minimum, maximum, .. } => {
                let dist: i64 = fx_add(fx_mul(point.x, point.x), fx_mul(point.z, point.z));
                proof {
                    lemma_square_nonneg(point.x as int);
                    lemma_square_nonneg(point.z as int);
                    lemma_add_nonneg(
                        spec_mul(point.x as int, point.x as int),
                        spec_mul(point.z as int, point.z as int),
                    );
                }
                if dist < SCALE && point.y >= fx_sub(*maximum, EPSILON) {
                    Vector { x: 0, y: SCALE, z: 0 }
                } else if dist < SCALE && point.y <= fx_add(*minimum, EPSILON) {
                    Vector { x: 0, y: -SCALE, z: 0 }
                } else if point.y > 0 {
                    Vector { x: point.x, y: fx_neg(fx_sqrt(dist)), z: point.z }
                } else {
                    Vector { x: point.x, y: fx_sqrt(dist), z: point.z }
                }
            },
            ShapeKind::Group { .. } => {
                proof {
                    assert(false);
                }
                Vector { x: 0, y: 0, z: 0 }
            },
        }
    }

    /// Intersections of a world-space ray with this primitive shape: the
    /// ray travels through the inverse of the shape's transform, then the
    /// local solver runs.  The transform must be invertible.
    pub fn intersect(&self, ray: &Ray) -> (r: Option<Vec<Intersection>>)
        requires
            !(self.kind is Group),
            spec_determinant(self.transform.data, 4) != 0,
        ensures
            ({
                let local_ray = spec_ray_transform(*ray, spec_inverse(self.transform.data));
                let s = spec_local_intersect(*self, local_ray);
                &&& r is Some <==> s is Some
                &&& r matches Some(v) ==> s matches Some(sv) && v@ == sv
            }),
    {
        let inv: Matrix = match self.transform.init().inverse(4) {
            Ok(m) => m,
            Err(_) => {
                proof {
                    assert(false);
                }
                Matrix::identity()
            },
        };
        let local_ray: Ray = ray.transform(&inv);
        self.local_intersect(&local_ray)
    }

    /// The normalized world-space normal at a world point, for a shape
    /// considered on its own (no parent chain).  The transform must be
    /// invertible.
    pub fn normal_at(&self, world_point: Point) -> (r: Vector)
        requires
            !(self.kind is Group),
            spec_determinant(self.transform.data, 4) != 0,
        ensures
            r == spec_normalize(spec_world_normal_raw(*self, world_point)),
    {
        let inv: Matrix = match self.transform.init().inverse(4) {
            Ok(m) => m,
            Err(_) => {
                proof {
                    assert(false);
                }
                Matrix::identity()
            },
        };
        let local_point: Point = inv.mul_point(world_point);
        let local_normal: Vector = self.local_normal_at(local_point);
        let world_normal: Vector = inv.transpose().mul_vector(local_normal);
        world_normal.normalize()
    }
}

/// Every intersection a primitive reports names that primitive itself.
#[verifier::rlimit(80)]
#[verifier::spinoff_prover]
pub proof fn lemma_local_intersect_object(s: Shape, ray: Ray)
    requires
        !(s.kind is Group),
    ensures
        spec_local_intersect(s, ray) matches Some(v) ==> forall|i: int|
            0 <= i < v.len() ==> (#[trigger] v[i]).object == s.id,
{
    match s.kind {
        ShapeKind::Sphere => {
        },
        ShapeKind::Plane => {
        },
        ShapeKind::Cube => {
        },
        ShapeKind::Cylinder { minimum, maximum, closed } => {
            let caps = spec_cyl_caps(s.id, minimum as int, maximum as int, closed, ray);
            assert(forall|i: int| 0 <= i < caps.len() ==> (#[trigger] caps[i]).object == s.id);
        },
        ShapeKind::Cone { minimum, maximum, closed } => {
            let caps = spec_cone_caps(s.id, minimum as int, maximum as int, closed, ray);
            assert(forall|i: int| 0 <= i < caps.len() ==> (#[trigger] caps[i]).object == s.id);
        },
        ShapeKind::Group { .. } => {
        },
    }
}

/// A unit sphere crossed by any ray that hits it at all is crossed
/// exactly twice, the two crossings possibly coinciding.
pub proof fn lemma_sphere_hit_count(id: usize, ray: Ray)
    ensures
        spec_sphere_intersections(id, ray) matches Some(v) ==> v.len() == 2,
{
}

/// A ray parallel to the xz plane, or within epsilon of parallel, never
/// crosses the plane.
pub proof fn lemma_plane_parallel_miss(id: usize, ray: Ray)
    requires
        abs_int(ray.direction.y as int) < EPSILON as int,
    ensures
        spec_plane_intersections(id, ray) is None,
{
}

/// The entry and exit times of a ray coordinate across one slab of the
/// cube.
fn check_axis(origin: i64, direction: i64) -> (r: (i64, i64))
    ensures
        r.0 == spec_check_axis(origin as int, direction as int).0,
        r.1 == spec_check_axis(origin as int, direction as int).1,
{
    if direction == 0 {
        if -SCALE <= origin && origin <= SCALE {
            (i64::MIN, i64::MAX)
        } else {
            (i64::MAX, i64::MIN)
        }
    } else {
        let tmin: i64 = fx_div(fx_sub(-SCALE, origin), direction);
        let tmax: i64 = fx_div(fx_sub(SCALE, origin), direction);
        if tmin > tmax {
            (tmax, tmin)
        } else {
            (tmin, tmax)
        }
    }
}

/// Whether the cylinder-cap crossing at `t` lies within radius 1 of the
/// y axis.
fn cyl_check_cap(ray: &Ray, t: i64) -> (r: bool)
    ensures
        r == spec_cyl_cap_hit(*ray, t as int),
{
    let x: i64 = fx_add(ray.origin.x, fx_mul(t, ray.direction.x));
    let z: i64 = fx_add(ray.origin.z, fx_mul(t, ray.direction.z));
    fx_add(fx_mul(x, x), fx_mul(z, z)) <= SCALE
}

/// Whether the cone-cap crossing at `t` lies within the cap radius
/// `|y|`.
fn cone_check_cap(ray: &Ray, t: i64) -> (r: bool)
    ensures
        r == spec_cone_cap_hit(*ray, t as int),
{
    let x: i64 = fx_add(ray.origin.x, fx_mul(t, ray.direction.x));
    let y: i64 = fx_add(ray.origin.y, fx_mul(t, ray.direction.y));
    let z: i64 = fx_add(ray.origin.z, fx_mul(t, ray.direction.z));
    fx_add(fx_mul(x, x), fx_mul(z, z)) <= fx_abs(y)
}

/// The larger of two scalars.
fn max_i64(a: i64, b: i64) -> (r: i64)
    ensures
        r == spec_max(a as int, b as int),
{
    if a >= b {
        a
    } else {
        b
    }
}

/// The smaller of two scalars.
fn min_i64(a: i64, b: i64) -> (r: i64)
    ensures
        r == spec_min(a as int, b as int),
{
    if a <= b {
        a
    } else {
        b
    }
}

} // verus!
