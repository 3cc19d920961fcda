//! Directions in the left-handed scene coordinate system.

use vstd::prelude::*;

use crate::fixed::EPSILON;
use crate::fixed::abs_int;
use crate::fixed::fx_add;
use crate::fixed::fx_div;
use crate::fixed::fx_mul;
use crate::fixed::fx_neg;
use crate::fixed::fx_sqrt;
use crate::fixed::fx_sub;
use crate::fixed::lemma_add_nonneg;
use crate::fixed::lemma_square_nonneg;
use crate::fixed::spec_add;
use crate::fixed::spec_div;
use crate::fixed::spec_mul;
use crate::fixed::spec_neg;
use crate::fixed::spec_sqrt;
use crate::fixed::spec_sub;

verus! {

/// A direction in space; translations do not affect it.
#[derive(Clone, Copy, Debug, PartialEq, Eq, Structural)]
pub struct Vector {
    /// Component along the x axis.
    pub x: i64,
    /// Component along the y axis.
    pub y: i64,
    /// Component along the z axis.
    pub z: i64,
}

/// Componentwise sum of two directions.
pub open spec fn spec_vec_add(a: Vector, b: Vector) -> Vector {
    Vector {
        x: spec_add(a.x as int, b.x as int) as i64,
        y: spec_add(a.y as int, b.y as int) as i64,
        z: spec_add(a.z as int, b.z as int) as i64,
    }
}

/// Componentwise difference of two directions.
pub open spec fn spec_vec_sub(a: Vector, b: Vector) -> Vector {
    Vector {
        x: spec_sub(a.x as int, b.x as int) as i64,
        y: spec_sub(a.y as int, b.y as int) as i64,
        z: spec_sub(a.z as int, b.z as int) as i64,
    }
}

/// Componentwise negation of a direction.
pub open spec fn spec_vec_neg(a: Vector) -> Vector {
    Vector {
        x: spec_neg(a.x as int) as i64,
        y: spec_neg(a.y as int) as i64,
        z: spec_neg(a.z as int) as i64,
    }
}

/// A direction scaled by a fixed-point factor.
pub open spec fn spec_vec_scale(a: Vector, s: int) -> Vector {
    Vector {
        x: spec_mul(a.x as int, s) as i64,
        y: spec_mul(a.y as int, s) as i64,
        z: spec_mul(a.z as int, s) as i64,
    }
}

/// A direction divided componentwise by a fixed-point factor.
pub open spec fn spec_vec_div(a: Vector, s: int) -> Vector {
    Vector {
        x: spec_div(a.x as int, s) as i64,
        y: spec_div(a.y as int, s) as i64,
        z: spec_div(a.z as int, s) as i64,
    }
}

/// Dot product of two directions: the sum of the componentwise products.
pub open spec fn spec_dot(a: Vector, b: Vector) -> int {
    spec_add(
        spec_add(spec_mul(a.x as int, b.x as int), spec_mul(a.y as int, b.y as int)),
        spec_mul(a.z as int, b.z as int),
    )
}

/// Cross product of two directions.
pub open spec fn spec_cross(a: Vector, b: Vector) -> Vector {
    Vector {
        x: spec_sub(spec_mul(a.y as int, b.z as int), spec_mul(a.z as int, b.y as int)) as i64,
        y: spec_sub(spec_mul(a.z as int, b.x as int), spec_mul(a.x as int, b.z as int)) as i64,
        z: spec_sub(spec_mul(a.x as int, b.y as int), spec_mul(a.y as int, b.x as int)) as i64,
    }
}

/// Length of a direction: the square root of its dot product with itself.
pub open spec fn spec_magnitude(a: Vector) -> int {
    spec_sqrt(spec_dot(a, a))
}

/// A direction shrunk or stretched to length one.  A direction whose
/// length rounds to zero carries no usable orientation and stays the zero
/// vector.
pub open spec fn spec_normalize(a: Vector) -> Vector {
    if spec_magnitude(a) == 0 {
        Vector { x: 0, y: 0, z: 0 }
    } else {
        spec_vec_div(a, spec_magnitude(a))
    }
}

/// The reflection of `v` about the surface normal `n`:
/// `v - n * 2 * dot(v, n)`.
pub open spec fn spec_reflect(v: Vector, n: Vector) -> Vector {
    spec_vec_sub(v, spec_vec_scale(n, spec_mul(2 * crate::fixed::SCALE, spec_dot(v, n))))
}

/// Two directions agree when every component differs by less than `EPSILON`.
pub open spec fn spec_vec_approx(a: Vector, b: Vector) -> bool {
    &&& abs_int(a.x - b.x) < EPSILON as int
    &&& abs_int(a.y - b.y) < EPSILON as int
    &&& abs_int(a.z - b.z) < EPSILON as int
}

impl Vector {
    /// Create a direction from its three components.
    pub fn new(x: i64, y: i64, z: i64) -> (r: Self)
        ensures
            r == (Vector { x, y, z }),
    {
        Self { x, y, z }
    }

    /// Componentwise sum.
    pub fn add(self, other: Self) -> (r: Self)
        ensures
            r == spec_vec_add(self, other),
    {
        Self { x: fx_add(self.x, other.x), y: fx_add(self.y, other.y), z: fx_add(self.z, other.z) }
    }

    /// Componentwise difference.
    pub fn sub(self, other: Self) -> (r: Self)
        ensures
            r == spec_vec_sub(self, other),
    {
        Self { x: fx_sub(self.x, other.x), y: fx_sub(self.y, other.y), z: fx_sub(self.z, other.z) }
    }

    /// Componentwise negation.
    pub fn neg(self) -> (r: Self)
        ensures
            r == spec_vec_neg(self),
    {
        Self { x: fx_neg(self.x), y: fx_neg(self.y), z: fx_neg(self.z) }
    }

    /// Scale every component by a fixed-point factor.
    pub fn scale(self, s: i64) -> (r: Self)
        ensures
            r == spec_vec_scale(self, s as int),
    {
        Self { x: fx_mul(self.x, s), y: fx_mul(self.y, s), z: fx_mul(self.z, s) }
    }

    /// Divide every component by a nonzero fixed-point factor.
    pub fn div(self, s: i64) -> (r: Self)
        requires
            s != 0,
        ensures
            r == spec_vec_div(self, s as int),
    {
        Self { x: fx_div(self.x, s), y: fx_div(self.y, s), z: fx_div(self.z, s) }
    }

    /// Dot product with another direction.
    pub fn dot(self, other: Self) -> (r: i64)
        ensures
            r == spec_dot(self, other),
    {
        fx_add(fx_add(fx_mul(self.x, other.x), fx_mul(self.y, other.y)), fx_mul(self.z, other.z))
    }

    /// Cross product with another direction.
    pub fn cross(self, other: Self) -> (r: Self)
        ensures
            r == spec_cross(self, other),
    {
        Self {
            x: fx_sub(fx_mul(self.y, other.z), fx_mul(self.z, other.y)),
            y: fx_sub(fx_mul(self.z, other.x), fx_mul(self.x, other.z)),
            z: fx_sub(fx_mul(self.x, other.y), fx_mul(self.y, other.x)),
        }
    }

    /// Length of the direction.
    pub fn magnitude(self) -> (r: i64)
        ensures
            r == spec_magnitude(self),
            r >= 0,
    {
        let d: i64 = self.dot(self);
        proof {
            lemma_dot_self_nonneg(self);
        }
        fx_sqrt(d)
    }

    /// Shrink or stretch the direction to length one.  A direction whose
    /// length rounds to zero carries no usable orientation and stays the
    /// zero vector.
    pub fn normalize(self) -> (r: Self)
        ensures
            r == spec_normalize(self),
    {
        let m: i64 = self.magnitude();
        if m == 0 {
            Vector { x: 0, y: 0, z: 0 }
        } else {
            self.div(m)
        }
    }

    /// Reflect the direction about a surface normal.
    pub fn reflect(self, normal: Self) -> (r: Self)
        ensures
            r == spec_reflect(self, normal),
    {
        let d: i64 = self.dot(normal);
        let two: i64 = 2 * crate::fixed::SCALE;
        self.sub(normal.scale(fx_mul(two, d)))
    }

    /// Epsilon-aware comparison with another direction.
    pub fn approx_eq(self, other: Self) -> (r: bool)
        ensures
            r == spec_vec_approx(self, other),
    {
        crate::float_eq(self.x, other.x) && crate::float_eq(self.y, other.y) && crate::float_eq(
            self.z,
            other.z,
        )
    }
}

/// The dot product of a direction with itself is never negative.
pub proof fn lemma_dot_self_nonneg(a: Vector)
    ensures
        spec_dot(a, a) >= 0,
{
    lemma_square_nonneg(a.x as int);
    lemma_square_nonneg(a.y as int);
    lemma_square_nonneg(a.z as int);
    lemma_add_nonneg(spec_mul(a.x as int, a.x as int), spec_mul(a.y as int, a.y as int));
    lemma_add_nonneg(
        spec_add(spec_mul(a.x as int, a.x as int), spec_mul(a.y as int, a.y as int)),
        spec_mul(a.z as int, a.z as int),
    );
}

} // verus!
