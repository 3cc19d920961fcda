//! Positions in the left-handed scene coordinate system.

use vstd::prelude::*;

use crate::fixed::abs_int;
use crate::fixed::EPSILON;
use crate::fixed::fx_add;
use crate::fixed::fx_neg;
use crate::fixed::fx_sub;
use crate::fixed::spec_add;
use crate::fixed::spec_neg;
use crate::fixed::spec_sub;
use crate::vector::Vector;

verus! {

/// A position in space, measured from the scene origin.
#[derive(Clone, Copy, Debug, PartialEq, Eq, Structural)]
pub struct Point {
    /// Distance from the origin along the x axis.
    pub x: i64,
    /// Distance from the origin along the y axis.
    pub y: i64,
    /// Distance from the origin along the z axis.
    pub z: i64,
}

/// A position moved along a direction.
pub open spec fn spec_point_add_vec(p: Point, v: Vector) -> Point {
    Point {
        x: spec_add(p.x as int, v.x as int) as i64,
        y: spec_add(p.y as int, v.y as int) as i64,
        z: spec_add(p.z as int, v.z as int) as i64,
    }
}

/// The direction leading from `b` to `a`.
pub open spec fn spec_point_sub(a: Point, b: Point) -> Vector {
    Vector {
        x: spec_sub(a.x as int, b.x as int) as i64,
        y: spec_sub(a.y as int, b.y as int) as i64,
        z: spec_sub(a.z as int, b.z as int) as i64,
    }
}

/// A position moved against a direction.
pub open spec fn spec_point_sub_vec(p: Point, v: Vector) -> Point {
    Point {
        x: spec_sub(p.x as int, v.x as int) as i64,
        y: spec_sub(p.y as int, v.y as int) as i64,
        z: spec_sub(p.z as int, v.z as int) as i64,
    }
}

/// The position mirrored through the origin.
pub open spec fn spec_point_neg(p: Point) -> Point {
    Point {
        x: spec_neg(p.x as int) as i64,
        y: spec_neg(p.y as int) as i64,
        z: spec_neg(p.z as int) as i64,
    }
}

/// Two positions agree when every coordinate differs by less than `EPSILON`.
pub open spec fn spec_point_approx(a: Point, b: Point) -> bool {
    &&& abs_int(a.x - b.x) < EPSILON as int
    &&& abs_int(a.y - b.y) < EPSILON as int
    &&& abs_int(a.z - b.z) < EPSILON as int
}

impl Point {
    /// Create a position from its three coordinates.
    pub fn new(x: i64, y: i64, z: i64) -> (r: Self)
        ensures
            r == (Point { x, y, z }),
    {
        Self { x, y, z }
    }

    /// Move the position along a direction.
    pub fn add_vec(self, v: Vector) -> (r: Self)
        ensures
            r == spec_point_add_vec(self, v),
    {
        Self { x: fx_add(self.x, v.x), y: fx_add(self.y, v.y), z: fx_add(self.z, v.z) }
    }

    /// The direction leading from `other` to this position.
    pub fn sub(self, other: Self) -> (r: Vector)
        ensures
            r == spec_point_sub(self, other),
    {
        Vector {
            x: fx_sub(self.x, other.x),
            y: fx_sub(self.y, other.y),
            z: fx_sub(self.z, other.z),
        }
    }

    /// Move the position against a direction.
    pub fn sub_vec(self, v: Vector) -> (r: Self)
        ensures
            r == spec_point_sub_vec(self, v),
    {
        Self { x: fx_sub(self.x, v.x), y: fx_sub(self.y, v.y), z: fx_sub(self.z, v.z) }
    }

    /// Mirror the position through the origin.
    pub fn neg(self) -> (r: Self)
        ensures
            r == spec_point_neg(self),
    {
        Self { x: fx_neg(self.x), y: fx_neg(self.y), z: fx_neg(self.z) }
    }

    /// Epsilon-aware comparison with another position.
    pub fn approx_eq(self, other: Self) -> (r: bool)
        ensures
            r == spec_point_approx(self, other),
    {
        crate::float_eq(self.x, other.x) && crate::float_eq(self.y, other.y) && crate::float_eq(
            self.z,
            other.z,
        )
    }
}

} // verus!
