//! Point lights.

use vstd::prelude::*;

use crate::color::RGB;
use crate::point::Point;

verus! {

/// A light with no size, existing at a single point in space, defined by
/// its position and its intensity.
#[derive(Clone, Copy, Debug, PartialEq, Eq, Structural)]
pub struct PointLight {
    /// Brightness and color of the light.
    pub intensity: RGB,
    /// The singular position of the light source.
    pub position: Point,
}

impl PointLight {
    /// Create a point light.
    pub fn new(position: Point, intensity: RGB) -> (r: Self)
        ensures
            r == (PointLight { intensity, position }),
    {
        Self { intensity, position }
    }

    /// The light's intensity.
    pub fn get_intensity(&self) -> (r: RGB)
        ensures
            r == self.intensity,
    {
        self.intensity
    }

    /// The light's position.
    pub fn get_position(&self) -> (r: Point)
        ensures
            r == self.position,
    {
        self.position
    }
}

} // verus!
