//! Rays: an origin with a direction.

use vstd::prelude::*;

use crate::matrix::Matrix;
use crate::matrix::spec_mat_mul_point;
use crate::matrix::spec_mat_mul_vector;
use crate::point::Point;
use crate::point::spec_point_add_vec;
use crate::vector::Vector;
use crate::vector::spec_vec_scale;

verus! {

/// A ray: where it starts, and where it points.
#[derive(Clone, Copy, Debug, PartialEq, Eq, Structural)]
pub struct Ray {
    /// Starting point of the ray.
    pub origin: Point,
    /// Direction the ray travels in.
    pub direction: Vector,
}

/// The position a ray reaches after travelling `t` of its direction.
pub open spec fn spec_position(r: Ray, t: int) -> Point {
    spec_point_add_vec(r.origin, spec_vec_scale(r.direction, t))
}

/// A ray carried into another frame by a matrix: both the origin and the
/// direction are transformed.
pub open spec fn spec_ray_transform(r: Ray, m: Matrix) -> Ray {
    Ray { origin: spec_mat_mul_point(m, r.origin), direction: spec_mat_mul_vector(m, r.direction) }
}

impl Ray {
    /// Create a ray from its origin and direction.
    pub fn new(origin: Point, direction: Vector) -> (r: Self)
        ensures
            r == (Ray { origin, direction }),
    {
        Self { origin, direction }
    }

    /// The position reached after travelling `t` of the direction.
    pub fn position(&self, t: i64) -> (r: Point)
        ensures
            r == spec_position(*self, t as int),
    {
        self.origin.add_vec(self.direction.scale(t))
    }

    /// Carry the ray into another frame.
    pub fn transform(&self, m: &Matrix) -> (r: Self)
        ensures
            r == spec_ray_transform(*self, *m),
    {
        Self { origin: m.mul_point(self.origin), direction: m.mul_vector(self.direction) }
    }
}

} // verus!
