//! 4x4 matrices over fixed-point scalars.
//!
//! Rows come first: field `m12` is the entry in row 1, column 2.
//! Determinants, minors and cofactors follow cofactor expansion with a
//! dimension-parametrized 2x2 base case, exactly as the contracts state.

use vstd::prelude::*;

use crate::fixed::EPSILON;
use crate::fixed::abs_int;
use crate::fixed::fx_add;
use crate::fixed::fx_div;
use crate::fixed::fx_mul;
use crate::fixed::fx_neg;
use crate::fixed::fx_sub;
use crate::fixed::spec_add;
use crate::fixed::spec_div;
use crate::fixed::spec_mul;
use crate::fixed::spec_neg;
use crate::fixed::spec_sub;
use crate::point::Point;
use crate::vector::Vector;

verus! {

/// A 4x4 matrix of fixed-point scalars, rows first.
#[derive(Clone, Copy, Debug, PartialEq, Eq, Structural)]
pub struct Matrix {
    /// Entry in row 0, column 0.
    pub m00: i64,
    /// Entry in row 0, column 1.
    pub m01: i64,
    /// Entry in row 0, column 2.
    pub m02: i64,
    /// Entry in row 0, column 3.
    pub m03: i64,
    /// Entry in row 1, column 0.
    pub m10: i64,
    /// Entry in row 1, column 1.
    pub m11: i64,
    /// Entry in row 1, column 2.
    pub m12: i64,
    /// Entry in row 1, column 3.
    pub m13: i64,
    /// Entry in row 2, column 0.
    pub m20: i64,
    /// Entry in row 2, column 1.
    pub m21: i64,
    /// Entry in row 2, column 2.
    pub m22: i64,
    /// Entry in row 2, column 3.
    pub m23: i64,
    /// Entry in row 3, column 0.
    pub m30: i64,
    /// Entry in row 3, column 1.
    pub m31: i64,
    /// Entry in row 3, column 2.
    pub m32: i64,
    /// Entry in row 3, column 3.
    pub m33: i64,
}

/// The entry of `m` in row `r`, column `c`.
pub open spec fn spec_get(m: Matrix, r: int, c: int) -> int {
    if r == 0 && c == 0 {
        m.m00 as int
    } else if r == 0 && c == 1 {
        m.m01 as int
    } else if r == 0 && c == 2 {
        m.m02 as int
    } else if r == 0 && c == 3 {
        m.m03 as int
    } else if r == 1 && c == 0 {
        m.m10 as int
    } else if r == 1 && c == 1 {
        m.m11 as int
    } else if r == 1 && c == 2 {
        m.m12 as int
    } else if r == 1 && c == 3 {
        m.m13 as int
    } else if r == 2 && c == 0 {
        m.m20 as int
    } else if r == 2 && c == 1 {
        m.m21 as int
    } else if r == 2 && c == 2 {
        m.m22 as int
    } else if r == 2 && c == 3 {
        m.m23 as int
    } else if r == 3 && c == 0 {
        m.m30 as int
    } else if r == 3 && c == 1 {
        m.m31 as int
    } else if r == 3 && c == 2 {
        m.m32 as int
    } else {
        m.m33 as int
    }
}

/// The identity matrix.
pub open spec fn spec_identity() -> Matrix {
    Matrix {
        m00: crate::fixed::SCALE as i64,
        m01: 0,
        m02: 0,
        m03: 0,
        m10: 0,
        m11: crate::fixed::SCALE as i64,
        m12: 0,
        m13: 0,
        m20: 0,
        m21: 0,
        m22: crate::fixed::SCALE as i64,
        m23: 0,
        m30: 0,
        m31: 0,
        m32: 0,
        m33: crate::fixed::SCALE as i64,
    }
}

/// The transpose of a matrix.
pub open spec fn spec_transpose(m: Matrix) -> Matrix {
    Matrix {
        m00: m.m00,
        m01: m.m10,
        m02: m.m20,
        m03: m.m30,
        m10: m.m01,
        m11: m.m11,
        m12: m.m21,
        m13: m.m31,
        m20: m.m02,
        m21: m.m12,
        m22: m.m22,
        m23: m.m32,
        m30: m.m03,
        m31: m.m13,
        m32: m.m23,
        m33: m.m33,
    }
}

/// The product of two matrices: each entry is the dot product of a row of
/// `a` with a column of `b`.
pub open spec fn spec_mat_mul(a: Matrix, b: Matrix) -> Matrix {
    Matrix {
        m00: spec_add(spec_add(spec_add(spec_mul(a.m00 as int, b.m00 as int), spec_mul(a.m01 as int, b.m10 as int)), spec_mul(a.m02 as int, b.m20 as int)), spec_mul(a.m03 as int, b.m30 as int)) as i64,
        m01: spec_add(spec_add(spec_add(spec_mul(a.m00 as int, b.m01 as int), spec_mul(a.m01 as int, b.m11 as int)), spec_mul(a.m02 as int, b.m21 as int)), spec_mul(a.m03 as int, b.m31 as int)) as i64,
        m02: spec_add(spec_add(spec_add(spec_mul(a.m00 as int, b.m02 as int), spec_mul(a.m01 as int, b.m12 as int)), spec_mul(a.m02 as int, b.m22 as int)), spec_mul(a.m03 as int, b.m32 as int)) as i64,
        m03: spec_add(spec_add(spec_add(spec_mul(a.m00 as int, b.m03 as int), spec_mul(a.m01 as int, b.m13 as int)), spec_mul(a.m02 as int, b.m23 as int)), spec_mul(a.m03 as int, b.m33 as int)) as i64,
        m10: spec_add(spec_add(spec_add(spec_mul(a.m10 as int, b.m00 as int), spec_mul(a.m11 as int, b.m10 as int)), spec_mul(a.m12 as int, b.m20 as int)), spec_mul(a.m13 as int, b.m30 as int)) as i64,
        m11: spec_add(spec_add(spec_add(spec_mul(a.m10 as int, b.m01 as int), spec_mul(a.m11 as int, b.m11 as int)), spec_mul(a.m12 as int, b.m21 as int)), spec_mul(a.m13 as int, b.m31 as int)) as i64,
        m12: spec_add(spec_add(spec_add(spec_mul(a.m10 as int, b.m02 as int), spec_mul(a.m11 as int, b.m12 as int)), spec_mul(a.m12 as int, b.m22 as int)), spec_mul(a.m13 as int, b.m32 as int)) as i64,
        m13: spec_add(spec_add(spec_add(spec_mul(a.m10 as int, b.m03 as int), spec_mul(a.m11 as int, b.m13 as int)), spec_mul(a.m12 as int, b.m23 as int)), spec_mul(a.m13 as int, b.m33 as int)) as i64,
        m20: spec_add(spec_add(spec_add(spec_mul(a.m20 as int, b.m00 as int), spec_mul(a.m21 as int, b.m10 as int)), spec_mul(a.m22 as int, b.m20 as int)), spec_mul(a.m23 as int, b.m30 as int)) as i64,
        m21: spec_add(spec_add(spec_add(spec_mul(a.m20 as int, b.m01 as int), spec_mul(a.m21 as int, b.m11 as int)), spec_mul(a.m22 as int, b.m21 as int)), spec_mul(a.m23 as int, b.m31 as int)) as i64,
        m22: spec_add(spec_add(spec_add(spec_mul(a.m20 as int, b.m02 as int), spec_mul(a.m21 as int, b.m12 as int)), spec_mul(a.m22 as int, b.m22 as int)), spec_mul(a.m23 as int, b.m32 as int)) as i64,
        m23: spec_add(spec_add(spec_add(spec_mul(a.m20 as int, b.m03 as int), spec_mul(a.m21 as int, b.m13 as int)), spec_mul(a.m22 as int, b.m23 as int)), spec_mul(a.m23 as int, b.m33 as int)) as i64,
        m30: spec_add(spec_add(spec_add(spec_mul(a.m30 as int, b.m00 as int), spec_mul(a.m31 as int, b.m10 as int)), spec_mul(a.m32 as int, b.m20 as int)), spec_mul(a.m33 as int, b.m30 as int)) as i64,
        m31: spec_add(spec_add(spec_add(spec_mul(a.m30 as int, b.m01 as int), spec_mul(a.m31 as int, b.m11 as int)), spec_mul(a.m32 as int, b.m21 as int)), spec_mul(a.m33 as int, b.m31 as int)) as i64,
        m32: spec_add(spec_add(spec_add(spec_mul(a.m30 as int, b.m02 as int), spec_mul(a.m31 as int, b.m12 as int)), spec_mul(a.m32 as int, b.m22 as int)), spec_mul(a.m33 as int, b.m32 as int)) as i64,
        m33: spec_add(spec_add(spec_add(spec_mul(a.m30 as int, b.m03 as int), spec_mul(a.m31 as int, b.m13 as int)), spec_mul(a.m32 as int, b.m23 as int)), spec_mul(a.m33 as int, b.m33 as int)) as i64,
    }
}

/// A matrix applied to a position: the homogeneous slot is 1, so the last
/// column's entries are added in unscaled.
pub open spec fn spec_mat_mul_point(m: Matrix, p: Point) -> Point {
    Point {
        x: spec_add(spec_add(spec_add(spec_mul(m.m00 as int, p.x as int), spec_mul(m.m01 as int, p.y as int)), spec_mul(m.m02 as int, p.z as int)), m.m03 as int) as i64,
        y: spec_add(spec_add(spec_add(spec_mul(m.m10 as int, p.x as int), spec_mul(m.m11 as int, p.y as int)), spec_mul(m.m12 as int, p.z as int)), m.m13 as int) as i64,
        z: spec_add(spec_add(spec_add(spec_mul(m.m20 as int, p.x as int), spec_mul(m.m21 as int, p.y as int)), spec_mul(m.m22 as int, p.z as int)), m.m23 as int) as i64,
    }
}

/// A matrix applied to a direction: the homogeneous slot is 0, so
/// translation entries do not contribute.
pub open spec fn spec_mat_mul_vector(m: Matrix, v: Vector) -> Vector {
    Vector {
        x: spec_add(spec_add(spec_mul(m.m00 as int, v.x as int), spec_mul(m.m01 as int, v.y as int)), spec_mul(m.m02 as int, v.z as int)) as i64,
        y: spec_add(spec_add(spec_mul(m.m10 as int, v.x as int), spec_mul(m.m11 as int, v.y as int)), spec_mul(m.m12 as int, v.z as int)) as i64,
        z: spec_add(spec_add(spec_mul(m.m20 as int, v.x as int), spec_mul(m.m21 as int, v.y as int)), spec_mul(m.m22 as int, v.z as int)) as i64,
    }
}

/// The source index that lands at target index `k` once index `i` is
/// removed.
pub open spec fn skip_index(i: int, k: int) -> int {
    if k < i {
        k
    } else {
        k + 1
    }
}

/// The submatrix with row `r` and column `c` removed; unused trailing
/// entries stay zero.
pub open spec fn spec_sub_matrix(m: Matrix, r: int, c: int) -> Matrix {
    Matrix {
        m00: spec_get(m, skip_index(r, 0), skip_index(c, 0)) as i64,
        m01: spec_get(m, skip_index(r, 0), skip_index(c, 1)) as i64,
        m02: spec_get(m, skip_index(r, 0), skip_index(c, 2)) as i64,
        m03: 0,
        m10: spec_get(m, skip_index(r, 1), skip_index(c, 0)) as i64,
        m11: spec_get(m, skip_index(r, 1), skip_index(c, 1)) as i64,
        m12: spec_get(m, skip_index(r, 1), skip_index(c, 2)) as i64,
        m13: 0,
        m20: spec_get(m, skip_index(r, 2), skip_index(c, 0)) as i64,
        m21: spec_get(m, skip_index(r, 2), skip_index(c, 1)) as i64,
        m22: spec_get(m, skip_index(r, 2), skip_index(c, 2)) as i64,
        m23: 0,
        m30: 0,
        m31: 0,
        m32: 0,
        m33: 0,
    }
}

/// The determinant of the leading `s`-by-`s` block, by cofactor expansion
/// along row 0 with a 2x2 base case.  The expansion always walks all four
/// columns; for a smaller block the extra entries are zero and contribute
/// nothing.
pub open spec fn spec_determinant(m: Matrix, s: int) -> int
    decreases s, 0int,
{
    if s <= 2 {
        spec_sub(
            spec_mul(m.m00 as int, m.m11 as int),
            spec_mul(m.m01 as int, m.m10 as int),
        )
    } else {
        spec_add(spec_add(spec_add(spec_mul(m.m00 as int, spec_cofactor(m, 0, 0, s - 1)), spec_mul(m.m01 as int, spec_cofactor(m, 0, 1, s - 1))), spec_mul(m.m02 as int, spec_cofactor(m, 0, 2, s - 1))), spec_mul(m.m03 as int, spec_cofactor(m, 0, 3, s - 1)))
    }
}

/// The cofactor of entry `(r, c)`: the determinant of the submatrix with
/// that row and column removed, negated on odd `r + c`.
pub open spec fn spec_cofactor(m: Matrix, r: int, c: int, s: int) -> int
    decreases s, 1int,
{
    let minor = spec_determinant(spec_sub_matrix(m, r, c), s);
    if (r + c) % 2 == 1 {
        spec_neg(minor)
    } else {
        minor
    }
}

/// The inverse of a 4x4 matrix: entry `(c, r)` is the cofactor of `(r, c)`
/// divided by the determinant.  Meaningful only when the determinant is
/// nonzero.
pub open spec fn spec_inverse(m: Matrix) -> Matrix {
    let d = spec_determinant(m, 4);
    Matrix {
        m00: spec_div(spec_cofactor(m, 0, 0, 3), d) as i64,
        m01: spec_div(spec_cofactor(m, 1, 0, 3), d) as i64,
        m02: spec_div(spec_cofactor(m, 2, 0, 3), d) as i64,
        m03: spec_div(spec_cofactor(m, 3, 0, 3), d) as i64,
        m10: spec_div(spec_cofactor(m, 0, 1, 3), d) as i64,
        m11: spec_div(spec_cofactor(m, 1, 1, 3), d) as i64,
        m12: spec_div(spec_cofactor(m, 2, 1, 3), d) as i64,
        m13: spec_div(spec_cofactor(m, 3, 1, 3), d) as i64,
        m20: spec_div(spec_cofactor(m, 0, 2, 3), d) as i64,
        m21: spec_div(spec_cofactor(m, 1, 2, 3), d) as i64,
        m22: spec_div(spec_cofactor(m, 2, 2, 3), d) as i64,
        m23: spec_div(spec_cofactor(m, 3, 2, 3), d) as i64,
        m30: spec_div(spec_cofactor(m, 0, 3, 3), d) as i64,
        m31: spec_div(spec_cofactor(m, 1, 3, 3), d) as i64,
        m32: spec_div(spec_cofactor(m, 2, 3, 3), d) as i64,
        m33: spec_div(spec_cofactor(m, 3, 3, 3), d) as i64,
    }
}

/// Two matrices agree when every entry differs by less than `EPSILON`.
pub open spec fn spec_matrix_approx(a: Matrix, b: Matrix) -> bool {
    &&& abs_int(a.m00 - b.m00) < EPSILON as int
    &&& abs_int(a.m01 - b.m01) < EPSILON as int
    &&& abs_int(a.m02 - b.m02) < EPSILON as int
    &&& abs_int(a.m03 - b.m03) < EPSILON as int
    &&& abs_int(a.m10 - b.m10) < EPSILON as int
    &&& abs_int(a.m11 - b.m11) < EPSILON as int
    &&& abs_int(a.m12 - b.m12) < EPSILON as int
    &&& abs_int(a.m13 - b.m13) < EPSILON as int
    &&& abs_int(a.m20 - b.m20) < EPSILON as int
    &&& abs_int(a.m21 - b.m21) < EPSILON as int
    &&& abs_int(a.m22 - b.m22) < EPSILON as int
    &&& abs_int(a.m23 - b.m23) < EPSILON as int
    &&& abs_int(a.m30 - b.m30) < EPSILON as int
    &&& abs_int(a.m31 - b.m31) < EPSILON as int
    &&& abs_int(a.m32 - b.m32) < EPSILON as int
    &&& abs_int(a.m33 - b.m33) < EPSILON as int
}

impl Matrix {
    /// Create a matrix from its sixteen entries, rows first.
    #[allow(clippy::too_many_arguments)]
    pub fn new(
        m00: i64,
        m01: i64,
        m02: i64,
        m03: i64,
        m10: i64,
        m11: i64,
        m12: i64,
        m13: i64,
        m20: i64,
        m21: i64,
        m22: i64,
        m23: i64,
        m30: i64,
        m31: i64,
        m32: i64,
        m33: i64,
    ) -> (r: Self)
        ensures
            r == (Matrix {
                m00,
                m01,
                m02,
                m03,
                m10,
                m11,
                m12,
                m13,
                m20,
                m21,
                m22,
                m23,
                m30,
                m31,
                m32,
                m33,
            }),
    {
        Self {
            m00,
            m01,
            m02,
            m03,
            m10,
            m11,
            m12,
            m13,
            m20,
            m21,
            m22,
            m23,
            m30,
            m31,
            m32,
            m33,
        }
    }

    /// The identity transformation matrix.
    pub fn identity() -> (r: Self)
        ensures
            r == spec_identity(),
    {
        Self {
            m00: crate::fixed::SCALE,
            m01: 0,
            m02: 0,
            m03: 0,
            m10: 0,
            m11: crate::fixed::SCALE,
            m12: 0,
            m13: 0,
            m20: 0,
            m21: 0,
            m22: crate::fixed::SCALE,
            m23: 0,
            m30: 0,
            m31: 0,
            m32: 0,
            m33: crate::fixed::SCALE,
        }
    }

    /// The entry in row `r`, column `c`.
    pub fn get(&self, r: usize, c: usize) -> (v: i64)
        requires
            r < 4,
            c < 4,
        ensures
            v == spec_get(*self, r as int, c as int),
    {
        if r == 0 && c == 0 {
            self.m00
        } else if r == 0 && c == 1 {
            self.m01
        } else if r == 0 && c == 2 {
            self.m02
        } else if r == 0 && c == 3 {
            self.m03
        } else if r == 1 && c == 0 {
            self.m10
        } else if r == 1 && c == 1 {
            self.m11
        } else if r == 1 && c == 2 {
            self.m12
        } else if r == 1 && c == 3 {
            self.m13
        } else if r == 2 && c == 0 {
            self.m20
        } else if r == 2 && c == 1 {
            self.m21
        } else if r == 2 && c == 2 {
            self.m22
        } else if r == 2 && c == 3 {
            self.m23
        } else if r == 3 && c == 0 {
            self.m30
        } else if r == 3 && c == 1 {
            self.m31
        } else if r == 3 && c == 2 {
            self.m32
        } else {
            self.m33
        }
    }

    /// Swap rows and columns.
    pub fn transpose(&self) -> (r: Self)
        ensures
            r == spec_transpose(*self),
    {
        Self {
            m00: self.m00,
            m01: self.m10,
            m02: self.m20,
            m03: self.m30,
            m10: self.m01,
            m11: self.m11,
            m12: self.m21,
            m13: self.m31,
            m20: self.m02,
            m21: self.m12,
            m22: self.m22,
            m23: self.m32,
            m30: self.m03,
            m31: self.m13,
            m32: self.m23,
            m33: self.m33,
        }
    }

    /// Matrix product: each entry is the dot product of a row of `self`
    /// with a column of `rhs`.
    pub fn mul(&self, rhs: &Matrix) -> (r: Self)
        ensures
            r == spec_mat_mul(*self, *rhs),
    {
        Self {
            m00: fx_add(fx_add(fx_add(fx_mul(self.m00, rhs.m00), fx_mul(self.m01, rhs.m10)), fx_mul(self.m02, rhs.m20)), fx_mul(self.m03, rhs.m30)),
            m01: fx_add(fx_add(fx_add(fx_mul(self.m00, rhs.m01), fx_mul(self.m01, rhs.m11)), fx_mul(self.m02, rhs.m21)), fx_mul(self.m03, rhs.m31)),
            m02: fx_add(fx_add(fx_add(fx_mul(self.m00, rhs.m02), fx_mul(self.m01, rhs.m12)), fx_mul(self.m02, rhs.m22)), fx_mul(self.m03, rhs.m32)),
            m03: fx_add(fx_add(fx_add(fx_mul(self.m00, rhs.m03), fx_mul(self.m01, rhs.m13)), fx_mul(self.m02, rhs.m23)), fx_mul(self.m03, rhs.m33)),
            m10: fx_add(fx_add(fx_add(fx_mul(self.m10, rhs.m00), fx_mul(self.m11, rhs.m10)), fx_mul(self.m12, rhs.m20)), fx_mul(self.m13, rhs.m30)),
            m11: fx_add(fx_add(fx_add(fx_mul(self.m10, rhs.m01), fx_mul(self.m11, rhs.m11)), fx_mul(self.m12, rhs.m21)), fx_mul(self.m13, rhs.m31)),
            m12: fx_add(fx_add(fx_add(fx_mul(self.m10, rhs.m02), fx_mul(self.m11, rhs.m12)), fx_mul(self.m12, rhs.m22)), fx_mul(self.m13, rhs.m32)),
            m13: fx_add(fx_add(fx_add(fx_mul(self.m10, rhs.m03), fx_mul(self.m11, rhs.m13)), fx_mul(self.m12, rhs.m23)), fx_mul(self.m13, rhs.m33)),
            m20: fx_add(fx_add(fx_add(fx_mul(self.m20, rhs.m00), fx_mul(self.m21, rhs.m10)), fx_mul(self.m22, rhs.m20)), fx_mul(self.m23, rhs.m30)),
            m21: fx_add(fx_add(fx_add(fx_mul(self.m20, rhs.m01), fx_mul(self.m21, rhs.m11)), fx_mul(self.m22, rhs.m21)), fx_mul(self.m23, rhs.m31)),
            m22: fx_add(fx_add(fx_add(fx_mul(self.m20, rhs.m02), fx_mul(self.m21, rhs.m12)), fx_mul(self.m22, rhs.m22)), fx_mul(self.m23, rhs.m32)),
            m23: fx_add(fx_add(fx_add(fx_mul(self.m20, rhs.m03), fx_mul(self.m21, rhs.m13)), fx_mul(self.m22, rhs.m23)), fx_mul(self.m23, rhs.m33)),
            m30: fx_add(fx_add(fx_add(fx_mul(self.m30, rhs.m00), fx_mul(self.m31, rhs.m10)), fx_mul(self.m32, rhs.m20)), fx_mul(self.m33, rhs.m30)),
            m31: fx_add(fx_add(fx_add(fx_mul(self.m30, rhs.m01), fx_mul(self.m31, rhs.m11)), fx_mul(self.m32, rhs.m21)), fx_mul(self.m33, rhs.m31)),
            m32: fx_add(fx_add(fx_add(fx_mul(self.m30, rhs.m02), fx_mul(self.m31, rhs.m12)), fx_mul(self.m32, rhs.m22)), fx_mul(self.m33, rhs.m32)),
            m33: fx_add(fx_add(fx_add(fx_mul(self.m30, rhs.m03), fx_mul(self.m31, rhs.m13)), fx_mul(self.m32, rhs.m23)), fx_mul(self.m33, rhs.m33)),
        }
    }

    /// Apply the matrix to a position (homogeneous slot 1).
    pub fn mul_point(&self, p: Point) -> (r: Point)
        ensures
            r == spec_mat_mul_point(*self, p),
    {
        Point {
            x: fx_add(fx_add(fx_add(fx_mul(self.m00, p.x), fx_mul(self.m01, p.y)), fx_mul(self.m02, p.z)), self.m03),
            y: fx_add(fx_add(fx_add(fx_mul(self.m10, p.x), fx_mul(self.m11, p.y)), fx_mul(self.m12, p.z)), self.m13),
            z: fx_add(fx_add(fx_add(fx_mul(self.m20, p.x), fx_mul(self.m21, p.y)), fx_mul(self.m22, p.z)), self.m23),
        }
    }

    /// Apply the matrix to a direction (homogeneous slot 0).
    pub fn mul_vector(&self, v: Vector) -> (r: Vector)
        ensures
            r == spec_mat_mul_vector(*self, v),
    {
        Vector {
            x: fx_add(fx_add(fx_mul(self.m00, v.x), fx_mul(self.m01, v.y)), fx_mul(self.m02, v.z)),
            y: fx_add(fx_add(fx_mul(self.m10, v.x), fx_mul(self.m11, v.y)), fx_mul(self.m12, v.z)),
            z: fx_add(fx_add(fx_mul(self.m20, v.x), fx_mul(self.m21, v.y)), fx_mul(self.m22, v.z)),
        }
    }

    /// The submatrix with row `r` and column `c` removed.
    pub fn sub_matrix(&self, r: usize, c: usize) -> (ret: Self)
        requires
            r < 4,
            c < 4,
        ensures
            ret == spec_sub_matrix(*self, r as int, c as int),
    {
        Self {
            m00: self.get(skip(r, 0), skip(c, 0)),
            m01: self.get(skip(r, 0), skip(c, 1)),
            m02: self.get(skip(r, 0), skip(c, 2)),
            m03: 0,
            m10: self.get(skip(r, 1), skip(c, 0)),
            m11: self.get(skip(r, 1), skip(c, 1)),
            m12: self.get(skip(r, 1), skip(c, 2)),
            m13: 0,
            m20: self.get(skip(r, 2), skip(c, 0)),
            m21: self.get(skip(r, 2), skip(c, 1)),
            m22: self.get(skip(r, 2), skip(c, 2)),
            m23: 0,
            m30: 0,
            m31: 0,
            m32: 0,
            m33: 0,
        }
    }

    /// The determinant of the leading `s`-by-`s` block.
    pub fn determinant(&self, s: usize) -> (d: i64)
        requires
            2 <= s <= 4,
        ensures
            d == spec_determinant(*self, s as int),
        decreases s, 0int,
    {
        if s == 2 {
            fx_sub(fx_mul(self.m00, self.m11), fx_mul(self.m01, self.m10))
        } else {
            fx_add(fx_add(fx_add(fx_mul(self.m00, self.cofactor(0, 0, s - 1)), fx_mul(self.m01, self.cofactor(0, 1, s - 1))), fx_mul(self.m02, self.cofactor(0, 2, s - 1))), fx_mul(self.m03, self.cofactor(0, 3, s - 1)))
        }
    }

    /// The determinant of the submatrix with row `r` and column `c`
    /// removed.
    pub fn minor(&self, r: usize, c: usize, s: usize) -> (d: i64)
        requires
            r < 4,
            c < 4,
            2 <= s <= 3,
        ensures
            d == spec_determinant(spec_sub_matrix(*self, r as int, c as int), s as int),
        decreases s, 1int,
    {
        self.sub_matrix(r, c).determinant(s)
    }

    /// The minor of `(r, c)`, negated on odd `r + c`.
    pub fn cofactor(&self, r: usize, c: usize, s: usize) -> (d: i64)
        requires
            r < 4,
            c < 4,
            2 <= s <= 3,
        ensures
            d == spec_cofactor(*self, r as int, c as int, s as int),
        decreases s, 2int,
    {
        let m: i64 = self.minor(r, c, s);
        if (r + c) % 2 == 1 {
            fx_neg(m)
        } else {
            m
        }
    }

    /// A matrix is invertible exactly when its determinant is nonzero.
    pub fn is_invertible(&self, s: usize) -> (r: bool)
        requires
            2 <= s <= 4,
        ensures
            r == (spec_determinant(*self, s as int) != 0),
    {
        self.determinant(s) != 0
    }

    /// The inverse of the matrix, by cofactor expansion.  Fails exactly
    /// when the determinant is zero; every scene transform is required to
    /// be invertible, so callers treat the failure as a programming error.
    pub fn inverse(&self, s: usize) -> (r: Result<Matrix, &'static str>)
        requires
            s == 4,
        ensures
            r is Err <==> spec_determinant(*self, 4) == 0,
            r matches Ok(inv) ==> inv == spec_inverse(*self),
    {
        let d: i64 = self.determinant(s);
        if d == 0 {
            Err("Matrix is not invertible!")
        } else {
            Ok(Self {
                m00: fx_div(self.cofactor(0, 0, 3), d),
                m01: fx_div(self.cofactor(1, 0, 3), d),
                m02: fx_div(self.cofactor(2, 0, 3), d),
                m03: fx_div(self.cofactor(3, 0, 3), d),
                m10: fx_div(self.cofactor(0, 1, 3), d),
                m11: fx_div(self.cofactor(1, 1, 3), d),
                m12: fx_div(self.cofactor(2, 1, 3), d),
                m13: fx_div(self.cofactor(3, 1, 3), d),
                m20: fx_div(self.cofactor(0, 2, 3), d),
                m21: fx_div(self.cofactor(1, 2, 3), d),
                m22: fx_div(self.cofactor(2, 2, 3), d),
                m23: fx_div(self.cofactor(3, 2, 3), d),
                m30: fx_div(self.cofactor(0, 3, 3), d),
                m31: fx_div(self.cofactor(1, 3, 3), d),
                m32: fx_div(self.cofactor(2, 3, 3), d),
                m33: fx_div(self.cofactor(3, 3, 3), d),
            })
        }
    }

    /// Epsilon-aware comparison with another matrix.
    pub fn approx_eq(&self, other: &Matrix) -> (r: bool)
        ensures
            r == spec_matrix_approx(*self, *other),
    {
        crate::float_eq(self.m00, other.m00)
            && crate::float_eq(self.m01, other.m01)
            && crate::float_eq(self.m02, other.m02)
            && crate::float_eq(self.m03, other.m03)
            && crate::float_eq(self.m10, other.m10)
            && crate::float_eq(self.m11, other.m11)
            && crate::float_eq(self.m12, other.m12)
            && crate::float_eq(self.m13, other.m13)
            && crate::float_eq(self.m20, other.m20)
            && crate::float_eq(self.m21, other.m21)
            && crate::float_eq(self.m22, other.m22)
            && crate::float_eq(self.m23, other.m23)
            && crate::float_eq(self.m30, other.m30)
            && crate::float_eq(self.m31, other.m31)
            && crate::float_eq(self.m32, other.m32)
            && crate::float_eq(self.m33, other.m33)
    }
}

/// The source index that lands at target index `k` once index `i` is
/// removed.
fn skip(i: usize, k: usize) -> (r: usize)
    requires
        k < 3,
        i < 4,
    ensures
        r == skip_index(i as int, k as int),
        r < 4,
{
    if k < i {
        k
    } else {
        k + 1
    }
}

} // verus!
