//! Procedural colorings, sampled in pattern space.
//!
//! A pattern carries two colors and its own transformation.  Sampling a
//! pattern on a shape converts the world point into object space through
//! the inverse shape transform, then into pattern space through the inverse
//! pattern transform, and applies the variant's per-point rule there.

use vstd::prelude::*;

use crate::color::RGB;
use crate::color::spec_rgb_add;
use crate::color::spec_rgb_scale;
use crate::color::spec_rgb_sub;
use crate::fixed::EPSILON;
use crate::fixed::SCALE;
use crate::fixed::fx_add;
use crate::fixed::fx_floor_units;
use crate::fixed::fx_mul;
use crate::fixed::fx_rem_units;
use crate::fixed::fx_sqrt;
use crate::fixed::fx_sub;
use crate::fixed::lemma_add_nonneg;
use crate::fixed::lemma_square_nonneg;
use crate::fixed::parity2;
use crate::fixed::spec_add;
use crate::fixed::spec_mul;
use crate::fixed::spec_sqrt;
use crate::matrix::Matrix;
use crate::matrix::spec_determinant;
use crate::matrix::spec_inverse;
use crate::matrix::spec_mat_mul_point;
use crate::point::Point;
use crate::shapes::Shape;
use crate::transformations::Transformation;

verus! {

/// The per-point rule a pattern follows, over the fixed set of variants.
#[derive(Clone, Copy, Debug, PartialEq, Eq, Structural)]
pub enum PatternKind {
    /// Alternate the two colors by the parity of `floor(x)`.
    Stripes,
    /// Alternate the two colors by the parity of `floor(sqrt(x * x + z * z))`.
    Ring,
    /// Alternate the two colors by the parity of `floor(x) + floor(y) + floor(z)`.
    Checkers,
    /// Blend linearly from the first color to the second by the fractional
    /// part of `x`.
    Gradient,
    /// Report the pattern-space point itself as a color, for observing what
    /// a sampler was handed.
    Test,
}

/// A procedural coloring: two colors, a transformation and a per-point rule.
#[derive(Clone, Copy, Debug, PartialEq, Eq, Structural)]
pub struct Pattern {
    /// First color.
    pub a: RGB,
    /// Second color.
    pub b: RGB,
    /// Transformation from object space into pattern space (as its
    /// inverse).
    pub transform: Transformation,
    /// The per-point rule.
    pub kind: PatternKind,
}

/// Whether the whole-unit count below `x` is even; negative coordinates
/// normalize into `{0, 1}` rather than keeping the sign of a remainder.
pub open spec fn spec_floor_even(x: int) -> bool {
    (x / (SCALE as int)) % 2 == 0
}

/// The color of a pattern at a pattern-space point.
pub open spec fn spec_pattern_at(p: Pattern, point: Point) -> RGB {
    match p.kind {
        PatternKind::Stripes => if spec_floor_even(point.x as int) {
            p.a
        } else {
            p.b
        },
        PatternKind::Ring => {
            let d = spec_sqrt(
                spec_add(
                    spec_mul(point.x as int, point.x as int),
                    spec_mul(point.z as int, point.z as int),
                ),
            );
            if spec_floor_even(d) {
                p.a
            } else {
                p.b
            }
        },
        PatternKind::Checkers => {
            let s = (point.x as int) / (SCALE as int) + (point.y as int) / (SCALE as int) + (
            point.z as int) / (SCALE as int);
            if s % 2 == 0 {
                p.a
            } else {
                p.b
            }
        },
        PatternKind::Gradient => {
            let fraction = (point.x as int) % (SCALE as int);
            spec_rgb_add(p.a, spec_rgb_scale(spec_rgb_sub(p.b, p.a), fraction))
        },
        PatternKind::Test => RGB { red: point.x, green: point.y, blue: point.z },
    }
}

/// The color of a pattern sampled on a shape at a world-space point: the
/// point travels through the inverse shape transform and then the inverse
/// pattern transform before the per-point rule applies.
pub open spec fn spec_pattern_at_shape(p: Pattern, object_transform: Matrix, point: Point) -> RGB {
    let object_point = spec_mat_mul_point(spec_inverse(object_transform), point);
    let pattern_point = spec_mat_mul_point(spec_inverse(p.transform.data), object_point);
    spec_pattern_at(p, pattern_point)
}

impl Pattern {
    /// A stripe pattern in the two given colors.
    pub fn stripe_pattern(a: RGB, b: RGB) -> (r: Self)
        ensures
            r == (Pattern { a, b, transform: Transformation { data: crate::matrix::spec_identity() }, kind: PatternKind::Stripes }),
    {
        Self { a, b, transform: Transformation::new(), kind: PatternKind::Stripes }
    }

    /// A ring pattern in the two given colors.
    pub fn ring_pattern(a: RGB, b: RGB) -> (r: Self)
        ensures
            r == (Pattern { a, b, transform: Transformation { data: crate::matrix::spec_identity() }, kind: PatternKind::Ring }),
    {
        Self { a, b, transform: Transformation::new(), kind: PatternKind::Ring }
    }

    /// A checkers pattern in the two given colors.
    pub fn checkers_pattern(a: RGB, b: RGB) -> (r: Self)
        ensures
            r == (Pattern { a, b, transform: Transformation { data: crate::matrix::spec_identity() }, kind: PatternKind::Checkers }),
    {
        Self { a, b, transform: Transformation::new(), kind: PatternKind::Checkers }
    }

    /// A gradient pattern blending from the first color to the second.
    pub fn gradient_pattern(a: RGB, b: RGB) -> (r: Self)
        ensures
            r == (Pattern { a, b, transform: Transformation { data: crate::matrix::spec_identity() }, kind: PatternKind::Gradient }),
    {
        Self { a, b, transform: Transformation::new(), kind: PatternKind::Gradient }
    }

    /// A test pattern that reports the pattern-space point it was handed.
    pub fn test_pattern() -> (r: Self)
        ensures
            r == (Pattern { a: RGB { red: SCALE as i64, green: SCALE as i64, blue: SCALE as i64 }, b: RGB { red: 0, green: 0, blue: 0 }, transform: Transformation { data: crate::matrix::spec_identity() }, kind: PatternKind::Test }),
    {
        Self { a: RGB::white(), b: RGB::black(), transform: Transformation::new(), kind: PatternKind::Test }
    }

    /// The pattern's own transformation.
    pub fn get_transform(&self) -> (r: Transformation)
        ensures
            r == self.transform,
    {
        self.transform
    }

    /// Replace the pattern's transformation.
    pub fn set_transform(&mut self, t: Transformation)
        ensures
            *final(self) == (Pattern { transform: t, ..*old(self) }),
    {
        self.transform = t;
    }

    /// The pattern's color at a pattern-space point.
    pub fn pattern_at(&self, point: Point) -> (r: RGB)
        ensures
            r == spec_pattern_at(*self, point),
    {
        match self.kind {
            PatternKind::Stripes => {
                if floor_even(point.x) {
                    self.a
                } else {
                    self.b
                }
            },
            PatternKind::Ring => {
                let xx: i64 = fx_mul(point.x, point.x);
                let zz: i64 = fx_mul(point.z, point.z);
                proof {
                    lemma_square_nonneg(point.x as int);
                    lemma_square_nonneg(point.z as int);
                    lemma_add_nonneg(
                        spec_mul(point.x as int, point.x as int),
                        spec_mul(point.z as int, point.z as int),
                    );
                }
                let d: i64 = fx_sqrt(fx_add(xx, zz));
                if floor_even(d) {
                    self.a
                } else {
                    self.b
                }
            },
            PatternKind::Checkers => {
                let s: i64 = fx_floor_units(point.x) + fx_floor_units(point.y) + fx_floor_units(
                    point.z,
                );
                if parity2(s) == 0 {
                    self.a
                } else {
                    self.b
                }
            },
            PatternKind::Gradient => {
                let fraction: i64 = fx_rem_units(point.x);
                self.a.add(self.b.sub(self.a).scale(fraction))
            },
            PatternKind::Test => RGB { red: point.x, green: point.y, blue: point.z },
        }
    }

    /// The pattern's color on a shape at a world-space point.  Both the
    /// shape's and the pattern's transforms must be invertible.
    pub fn pattern_at_shape(&self, shape: &Shape, point: Point) -> (r: RGB)
        requires
            spec_determinant(shape.transform.data, 4) != 0,
            spec_determinant(self.transform.data, 4) != 0,
        ensures
            r == spec_pattern_at_shape(*self, shape.transform.data, point),
    {
        let object_inverse = match shape.transform.init().inverse(4) {
            Ok(m) => m,
            Err(_) => {
                proof {
                    assert(false);
                }
                Matrix::identity()
            },
        };
        let object_point: Point = object_inverse.mul_point(point);
        let pattern_inverse = match self.transform.init().inverse(4) {
            Ok(m) => m,
            Err(_) => {
                proof {
                    assert(false);
                }
                Matrix::identity()
            },
        };
        let pattern_point: Point = pattern_inverse.mul_point(object_point);
        self.pattern_at(pattern_point)
    }
}

/// Whether the whole-unit count below `x` is even.
fn floor_even(x: i64) -> (r: bool)
    ensures
        r == spec_floor_even(x as int),
{
    parity2(fx_floor_units(x)) == 0
}

} // verus!
