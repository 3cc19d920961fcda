//! Composable affine transformations.
//!
//! Each builder applies a new operation so that it takes effect before the
//! previously applied ones in world space: the new generator matrix is
//! multiplied onto the left of the accumulated matrix, so reading a builder
//! chain left to right gives the order in which the operations act on a
//! point.

use vstd::prelude::*;

use crate::fixed::SCALE;
use crate::fixed::fx_cos;
use crate::fixed::fx_neg;
use crate::fixed::fx_sin;
use crate::fixed::spec_cos;
use crate::fixed::spec_neg;
use crate::fixed::spec_sin;
use crate::matrix::Matrix;
use crate::matrix::spec_identity;
use crate::matrix::spec_mat_mul;
use crate::point::Point;
use crate::point::spec_point_sub;
use crate::vector::Vector;
use crate::vector::spec_cross;
use crate::vector::spec_normalize;

verus! {

/// An accumulated affine transformation, kept as its 4x4 matrix.
#[derive(Clone, Copy, Debug, PartialEq, Eq, Structural)]
pub struct Transformation {
    /// The accumulated matrix.
    pub data: Matrix,
}

/// The generator matrix that moves a position by `(x, y, z)`.
pub open spec fn spec_translation(x: int, y: int, z: int) -> Matrix {
    Matrix {
        m00: SCALE as i64,
        m01: 0,
        m02: 0,
        m03: x as i64,
        m10: 0,
        m11: SCALE as i64,
        m12: 0,
        m13: y as i64,
        m20: 0,
        m21: 0,
        m22: SCALE as i64,
        m23: z as i64,
        m30: 0,
        m31: 0,
        m32: 0,
        m33: SCALE as i64,
    }
}

/// The generator matrix that scales each axis by the given factor.
pub open spec fn spec_scaling(x: int, y: int, z: int) -> Matrix {
    Matrix {
        m00: x as i64,
        m01: 0,
        m02: 0,
        m03: 0,
        m10: 0,
        m11: y as i64,
        m12: 0,
        m13: 0,
        m20: 0,
        m21: 0,
        m22: z as i64,
        m23: 0,
        m30: 0,
        m31: 0,
        m32: 0,
        m33: SCALE as i64,
    }
}

/// The generator matrix for a rotation around the x axis by `rad` radians.
pub open spec fn spec_rotation_x(rad: int) -> Matrix {
    Matrix {
        m00: SCALE as i64,
        m01: 0,
        m02: 0,
        m03: 0,
        m10: 0,
        m11: spec_cos(rad) as i64,
        m12: spec_neg(spec_sin(rad)) as i64,
        m13: 0,
        m20: 0,
        m21: spec_sin(rad) as i64,
        m22: spec_cos(rad) as i64,
        m23: 0,
        m30: 0,
        m31: 0,
        m32: 0,
        m33: SCALE as i64,
    }
}

/// The generator matrix for a rotation around the y axis by `rad` radians.
pub open spec fn spec_rotation_y(rad: int) -> Matrix {
    Matrix {
        m00: spec_cos(rad) as i64,
        m01: 0,
        m02: spec_sin(rad) as i64,
        m03: 0,
        m10: 0,
        m11: SCALE as i64,
        m12: 0,
        m13: 0,
        m20: spec_neg(spec_sin(rad)) as i64,
        m21: 0,
        m22: spec_cos(rad) as i64,
        m23: 0,
        m30: 0,
        m31: 0,
        m32: 0,
        m33: SCALE as i64,
    }
}

/// The generator matrix for a rotation around the z axis by `rad` radians.
pub open spec fn spec_rotation_z(rad: int) -> Matrix {
    Matrix {
        m00: spec_cos(rad) as i64,
        m01: spec_neg(spec_sin(rad)) as i64,
        m02: 0,
        m03: 0,
        m10: spec_sin(rad) as i64,
        m11: spec_cos(rad) as i64,
        m12: 0,
        m13: 0,
        m20: 0,
        m21: 0,
        m22: SCALE as i64,
        m23: 0,
        m30: 0,
        m31: 0,
        m32: 0,
        m33: SCALE as i64,
    }
}

/// The generator matrix that shears each coordinate in proportion to the
/// other two.
pub open spec fn spec_shearing(xy: int, xz: int, yx: int, yz: int, zx: int, zy: int) -> Matrix {
    Matrix {
        m00: SCALE as i64,
        m01: xy as i64,
        m02: xz as i64,
        m03: 0,
        m10: yx as i64,
        m11: SCALE as i64,
        m12: yz as i64,
        m13: 0,
        m20: zx as i64,
        m21: zy as i64,
        m22: SCALE as i64,
        m23: 0,
        m30: 0,
        m31: 0,
        m32: 0,
        m33: SCALE as i64,
    }
}

/// The orientation matrix of a camera looking along `forward` with `left`
/// and `true_up` completing the basis.
pub open spec fn spec_orientation(left: Vector, true_up: Vector, forward: Vector) -> Matrix {
    Matrix {
        m00: left.x,
        m01: left.y,
        m02: left.z,
        m03: 0,
        m10: true_up.x,
        m11: true_up.y,
        m12: true_up.z,
        m13: 0,
        m20: spec_neg(forward.x as int) as i64,
        m21: spec_neg(forward.y as int) as i64,
        m22: spec_neg(forward.z as int) as i64,
        m23: 0,
        m30: 0,
        m31: 0,
        m32: 0,
        m33: SCALE as i64,
    }
}

/// The matrix that orients the world relative to a camera standing at
/// `from`, looking at `to`, with `up` roughly upward.
pub open spec fn spec_view_transformation(from: Point, to: Point, up: Vector) -> Matrix {
    let gaze = spec_point_sub(to, from);
    let forward = spec_normalize(gaze);
    let left = spec_cross(forward, spec_normalize(up));
    let true_up = spec_cross(left, forward);
    spec_mat_mul(
        spec_orientation(left, true_up, forward),
        spec_mat_mul(
            spec_translation(
                spec_neg(from.x as int),
                spec_neg(from.y as int),
                spec_neg(from.z as int),
            ),
            spec_identity(),
        ),
    )
}

/// A translation's determinant is exactly one: every translation is
/// invertible, so the round trip through a translation's inverse is
/// always available.
#[verifier::rlimit(100)]
#[verifier::spinoff_prover]
pub proof fn lemma_translation_determinant(x: int, y: int, z: int)
    requires
        crate::fixed::abs_int(x) <= 1_000_000_000_000_000,
        crate::fixed::abs_int(y) <= 1_000_000_000_000_000,
        crate::fixed::abs_int(z) <= 1_000_000_000_000_000,
    ensures
        crate::matrix::spec_determinant(spec_translation(x, y, z), 4) == SCALE as int,
{
    reveal_with_fuel(crate::matrix::spec_determinant, 4);
    reveal_with_fuel(crate::matrix::spec_cofactor, 4);
    let one: int = SCALE as int;
    let t = spec_translation(x, y, z);
    crate::fixed::lemma_mul_one(one);
    crate::fixed::lemma_mul_one(z);
    crate::fixed::lemma_mul_zero(one);
    crate::fixed::lemma_mul_zero(x);
    crate::fixed::lemma_mul_zero(y);
    crate::fixed::lemma_mul_zero(z);
    crate::fixed::lemma_mul_zero(crate::matrix::spec_cofactor(t, 0, 1, 3));
    crate::fixed::lemma_mul_zero(crate::matrix::spec_cofactor(t, 0, 2, 3));

    // The minor of the top-left entry: the lower-right block, an upper
    // triangular matrix whose determinant is one.
    let sub00 = crate::matrix::spec_sub_matrix(t, 0, 0);
    assert(sub00.m00 == SCALE as i64 && sub00.m01 == 0 && sub00.m02 == y as i64);
    assert(sub00.m10 == 0 && sub00.m11 == SCALE as i64 && sub00.m12 == z as i64);
    assert(sub00.m20 == 0 && sub00.m21 == 0 && sub00.m22 == SCALE as i64);
    let s00a = crate::matrix::spec_sub_matrix(sub00, 0, 0);
    assert(s00a.m00 == SCALE as i64 && s00a.m01 == z as i64 && s00a.m10 == 0 && s00a.m11
        == SCALE as i64);
    assert(crate::matrix::spec_determinant(s00a, 2) == one) by {
        crate::fixed::lemma_mul_one(one);
        crate::fixed::lemma_mul_zero(z);
    }
    assert(crate::matrix::spec_cofactor(sub00, 0, 0, 2) == one);
    let s00c = crate::matrix::spec_sub_matrix(sub00, 0, 2);
    assert(s00c.m00 == 0 && s00c.m01 == SCALE as i64 && s00c.m10 == 0 && s00c.m11 == 0);
    assert(crate::matrix::spec_determinant(s00c, 2) == 0) by {
        crate::fixed::lemma_mul_zero(one);
        crate::fixed::lemma_mul_zero(0);
    }
    assert(crate::matrix::spec_cofactor(sub00, 0, 2, 2) == 0);
    assert(crate::matrix::spec_determinant(sub00, 3) == one) by {
        crate::fixed::lemma_mul_one(one);
        crate::fixed::lemma_mul_zero(crate::matrix::spec_cofactor(sub00, 0, 1, 2));
        crate::fixed::lemma_mul_zero(crate::matrix::spec_cofactor(sub00, 0, 3, 2));
        crate::fixed::lemma_mul_zero(y);
    }
    assert(crate::matrix::spec_cofactor(t, 0, 0, 3) == one);

    // The minor of the top-right entry has an all-zero bottom row, so its
    // determinant vanishes and the translation offsets do not reach the
    // determinant at all.
    let sub03 = crate::matrix::spec_sub_matrix(t, 0, 3);
    assert(sub03.m00 == 0 && sub03.m01 == SCALE as i64 && sub03.m02 == 0);
    assert(sub03.m10 == 0 && sub03.m11 == 0 && sub03.m12 == SCALE as i64);
    assert(sub03.m20 == 0 && sub03.m21 == 0 && sub03.m22 == 0);
    let s03b = crate::matrix::spec_sub_matrix(sub03, 0, 1);
    assert(s03b.m00 == 0 && s03b.m01 == SCALE as i64 && s03b.m10 == 0 && s03b.m11 == 0);
    assert(crate::matrix::spec_determinant(s03b, 2) == 0) by {
        crate::fixed::lemma_mul_zero(one);
        crate::fixed::lemma_mul_zero(0);
    }
    assert(crate::matrix::spec_cofactor(sub03, 0, 1, 2) == 0);
    assert(crate::matrix::spec_determinant(sub03, 3) == 0) by {
        crate::fixed::lemma_mul_zero(crate::matrix::spec_cofactor(sub03, 0, 0, 2));
        crate::fixed::lemma_mul_zero(crate::matrix::spec_cofactor(sub03, 0, 2, 2));
        crate::fixed::lemma_mul_zero(crate::matrix::spec_cofactor(sub03, 0, 3, 2));
        crate::fixed::lemma_mul_one(crate::matrix::spec_cofactor(sub03, 0, 1, 2));
    }
    assert(crate::matrix::spec_cofactor(t, 0, 3, 3) == 0);
    crate::fixed::lemma_mul_zero(x);
    assert(crate::matrix::spec_determinant(t, 4) == one) by {
        crate::fixed::lemma_mul_one(crate::matrix::spec_cofactor(t, 0, 0, 3));
        crate::fixed::lemma_mul_zero(crate::matrix::spec_cofactor(t, 0, 1, 3));
        crate::fixed::lemma_mul_zero(crate::matrix::spec_cofactor(t, 0, 2, 3));
        crate::fixed::lemma_mul_zero(x);
        reveal_with_fuel(crate::matrix::spec_determinant, 4);
        reveal_with_fuel(crate::matrix::spec_cofactor, 4);
    }
}

impl Transformation {
    /// Start from the identity transformation.
    pub fn new() -> (r: Self)
        ensures
            r.data == spec_identity(),
    {
        Self { data: Matrix::identity() }
    }

    /// The accumulated transformation as a matrix.
    pub fn init(&self) -> (r: Matrix)
        ensures
            r == self.data,
    {
        self.data
    }

    /// Apply a translation before the operations already applied.
    pub fn translation(self, x: i64, y: i64, z: i64) -> (r: Self)
        ensures
            r.data == spec_mat_mul(spec_translation(x as int, y as int, z as int), self.data),
    {
        let one: i64 = SCALE;
        let trans = Matrix::new(one, 0, 0, x, 0, one, 0, y, 0, 0, one, z, 0, 0, 0, one);
        Self { data: trans.mul(&self.data) }
    }

    /// Apply a scaling before the operations already applied.
    pub fn scaling(self, x: i64, y: i64, z: i64) -> (r: Self)
        ensures
            r.data == spec_mat_mul(spec_scaling(x as int, y as int, z as int), self.data),
    {
        let one: i64 = SCALE;
        let scale = Matrix::new(x, 0, 0, 0, 0, y, 0, 0, 0, 0, z, 0, 0, 0, 0, one);
        Self { data: scale.mul(&self.data) }
    }

    /// Apply a rotation around the x axis (radians) before the operations
    /// already applied.
    pub fn rotate_x(self, rad: i64) -> (r: Self)
        ensures
            r.data == spec_mat_mul(spec_rotation_x(rad as int), self.data),
    {
        let one: i64 = SCALE;
        let c: i64 = fx_cos(rad);
        let s: i64 = fx_sin(rad);
        let rot = Matrix::new(one, 0, 0, 0, 0, c, fx_neg(s), 0, 0, s, c, 0, 0, 0, 0, one);
        Self { data: rot.mul(&self.data) }
    }

    /// Apply a rotation around the y axis (radians) before the operations
    /// already applied.
    pub fn rotate_y(self, rad: i64) -> (r: Self)
        ensures
            r.data == spec_mat_mul(spec_rotation_y(rad as int), self.data),
    {
        let one: i64 = SCALE;
        let c: i64 = fx_cos(rad);
        let s: i64 = fx_sin(rad);
        let rot = Matrix::new(c, 0, s, 0, 0, one, 0, 0, fx_neg(s), 0, c, 0, 0, 0, 0, one);
        Self { data: rot.mul(&self.data) }
    }

    /// Apply a rotation around the z axis (radians) before the operations
    /// already applied.
    pub fn rotate_z(self, rad: i64) -> (r: Self)
        ensures
            r.data == spec_mat_mul(spec_rotation_z(rad as int), self.data),
    {
        let one: i64 = SCALE;
        let c: i64 = fx_cos(rad);
        let s: i64 = fx_sin(rad);
        let rot = Matrix::new(c, fx_neg(s), 0, 0, s, c, 0, 0, 0, 0, one, 0, 0, 0, 0, one);
        Self { data: rot.mul(&self.data) }
    }

    /// Apply a shearing before the operations already applied.
    pub fn shearing(self, xy: i64, xz: i64, yx: i64, yz: i64, zx: i64, zy: i64) -> (r: Self)
        ensures
            r.data == spec_mat_mul(
                spec_shearing(xy as int, xz as int, yx as int, yz as int, zx as int, zy as int),
                self.data,
            ),
    {
        let one: i64 = SCALE;
        let shear = Matrix::new(one, xy, xz, 0, yx, one, yz, 0, zx, zy, one, 0, 0, 0, 0, one);
        Self { data: shear.mul(&self.data) }
    }

    /// Compose with another transformation: `self` acts after `rhs`.
    pub fn mul(self, rhs: Transformation) -> (r: Self)
        ensures
            r.data == spec_mat_mul(self.data, rhs.data),
    {
        Self { data: self.data.mul(&rhs.data) }
    }

    /// Orient the world relative to a camera standing at `from`, looking at
    /// `to`, with `up` roughly upward.
    pub fn view_transformation(from: Point, to: Point, up: Vector) -> (r: Self)
        ensures
            r.data == spec_view_transformation(from, to, up),
    {
        let forward: Vector = to.sub(from).normalize();
        let left: Vector = forward.cross(up.normalize());
        let true_up: Vector = left.cross(forward);
        let one: i64 = SCALE;
        let orientation = Matrix::new(
            left.x,
            left.y,
            left.z,
            0,
            true_up.x,
            true_up.y,
            true_up.z,
            0,
            fx_neg(forward.x),
            fx_neg(forward.y),
            fx_neg(forward.z),
            0,
            0,
            0,
            0,
            one,
        );
        let translation = Transformation::new().translation(
            fx_neg(from.x),
            fx_neg(from.y),
            fx_neg(from.z),
        );
        Self { data: orientation.mul(&translation.data) }
    }
}

impl Default for Transformation {
    /// The identity transformation.
    fn default() -> (r: Self)
        ensures
            r.data == spec_identity(),
    {
        Transformation::new()
    }
}

} // verus!
