//! A recursive whole-scene ray tracer over fixed-point arithmetic.
//!
//! Scene geometry (spheres, planes, cubes, cylinders, cones, groups),
//! materials, patterns, a point light and a camera combine into a rendered
//! raster image by simulating light transport along rays.  Every scalar is a
//! fixed-point number: an `i64` counting units of `1 / SCALE`, so that all of
//! the geometry, shading and serialization logic is exact integer arithmetic.

use vstd::prelude::*;

mod fixed;
mod vector;
mod matrix;
mod transformations;
mod ray;
mod light;
mod intersection;
mod shapes;
mod pattern;
mod material;
mod world;
mod computations;
mod canvas;
mod camera;
mod point;
mod color;
pub use crate::color::RGB;
pub use crate::matrix::Matrix;
pub use crate::transformations::Transformation;
pub use crate::ray::Ray;
pub use crate::light::PointLight;
pub use crate::intersection::Intersection;
pub use crate::intersection::hit;
pub use crate::shapes::Shape;
pub use crate::shapes::ShapeKind;
pub use crate::pattern::Pattern;
pub use crate::pattern::PatternKind;
pub use crate::material::Material;
pub use crate::world::World;
pub use crate::computations::Computation;
pub use crate::canvas::Canvas;
pub use crate::camera::Camera;
pub use crate::color::clamp;
pub use crate::point::Point;
pub use crate::vector::Vector;
pub use crate::fixed::EPSILON;
pub use crate::fixed::SCALE;
pub use crate::fixed::fx;
pub use crate::fixed::fx_add;
pub use crate::fixed::fx_div;
pub use crate::fixed::fx_mul;
pub use crate::fixed::fx_neg;
pub use crate::fixed::fx_sqrt;
pub use crate::fixed::fx_abs;
pub use crate::fixed::fx_powi;
pub use crate::fixed::fx_sin;
pub use crate::fixed::fx_cos;
pub use crate::fixed::fx_tan;
pub use crate::fixed::FX_PI;
pub use crate::fixed::FX_TWO_PI;
pub use crate::fixed::FX_HALF_PI;
pub use crate::fixed::HALF_SCALE;
pub use crate::fixed::fx_sub;

verus! {

/// Two fixed-point scalars are considered equal when they differ by less
/// than `EPSILON` units; exact equality is never used for derived values.
pub open spec fn spec_float_eq(a: int, b: int) -> bool {
    -(EPSILON as int) < a - b < EPSILON as int
}

/// Epsilon-aware equality on fixed-point scalars.
pub fn float_eq(a: i64, b: i64) -> (r: bool)
    ensures
        r == spec_float_eq(a as int, b as int),
{
    let d: i128 = (a as i128) - (b as i128);
    -(EPSILON as i128) < d && d < EPSILON as i128
}

/// Epsilon-aware three-way comparison on fixed-point scalars: scalars
/// within `EPSILON` of each other compare equal.
pub fn float_cmp(a: i64, b: i64) -> (r: core::cmp::Ordering)
    ensures
        spec_float_eq(a as int, b as int) ==> r == core::cmp::Ordering::Equal,
        !spec_float_eq(a as int, b as int) && a < b ==> r == core::cmp::Ordering::Less,
        !spec_float_eq(a as int, b as int) && a > b ==> r == core::cmp::Ordering::Greater,
{
    if float_eq(a, b) {
        core::cmp::Ordering::Equal
    } else if a < b {
        core::cmp::Ordering::Less
    } else {
        core::cmp::Ordering::Greater
    }
}

} // verus!
