//! Surface materials and the Phong illumination model.

use vstd::prelude::*;

use crate::color::RGB;
use crate::color::spec_rgb_add;
use crate::color::spec_rgb_mul;
use crate::color::spec_rgb_scale;
use crate::fixed::SCALE;
use crate::fixed::fx_mul;
use crate::fixed::fx_powi;
use crate::light::PointLight;
use crate::matrix::spec_determinant;
use crate::pattern::Pattern;
use crate::pattern::spec_pattern_at_shape;
use crate::point::Point;
use crate::point::spec_point_sub;
use crate::shapes::Shape;
use crate::vector::Vector;
use crate::vector::spec_dot;
use crate::vector::spec_reflect;
use crate::vector::spec_normalize;
use crate::vector::spec_vec_neg;

verus! {

/// All the properties of a surface: its base color, the Phong
/// coefficients, how mirror-like and how transparent it is, and an optional
/// procedural pattern that overrides the base color.
#[derive(Clone, Copy, Debug, PartialEq, Eq, Structural)]
pub struct Material {
    /// The base color.
    pub color: RGB,
    /// Phong ambient coefficient.
    pub ambient: i64,
    /// Phong diffuse coefficient.
    pub diffuse: i64,
    /// Phong specular coefficient.
    pub specular: i64,
    /// Phong shininess exponent; only its whole-unit part drives the
    /// specular power.
    pub shininess: i64,
    /// How mirror-like the surface is, from 0 to 1.
    pub reflective: i64,
    /// How transparent the surface is, from 0 to 1.
    pub transparency: i64,
    /// Refractive index of the material's interior; vacuum is 1.
    pub refractive_index: i64,
    /// Optional procedural coloring that overrides the base color.
    pub pattern: Option<Pattern>,
}

/// The default material: matte white, ambient 0.1, diffuse 0.9, specular
/// 0.9, shininess 200, no reflection, no transparency, vacuum refraction.
pub open spec fn spec_default_material() -> Material {
    Material {
        color: RGB { red: SCALE as i64, green: SCALE as i64, blue: SCALE as i64 },
        ambient: 100_000,
        diffuse: 900_000,
        specular: 900_000,
        shininess: 200_000_000,
        reflective: 0,
        transparency: 0,
        refractive_index: SCALE as i64,
        pattern: None,
    }
}

/// The whole-number specular exponent taken from a fixed-point shininess.
pub open spec fn spec_exponent(s: int) -> nat {
    if s >= 0 {
        (s / (SCALE as int)) as nat
    } else {
        0
    }
}

/// The surface color that shading starts from: the pattern sample when a
/// pattern is present, the flat base color otherwise.
pub open spec fn spec_base_color(m: Material, object_transform: crate::matrix::Matrix, position: Point) -> RGB {
    match m.pattern {
        Some(p) => spec_pattern_at_shape(p, object_transform, position),
        None => m.color,
    }
}

/// The Phong illumination model.  The effective color combines the surface
/// color with the light's intensity; ambient light always contributes;
/// diffuse and specular light contribute only when the point is lit and
/// facing the light.
#[verifier::opaque]
pub open spec fn spec_lightning(
    m: Material,
    object_transform: crate::matrix::Matrix,
    light: PointLight,
    position: Point,
    eyev: Vector,
    normalv: Vector,
    in_shadow: bool,
) -> RGB {
    let base = spec_base_color(m, object_transform, position);
    let effective = spec_rgb_mul(base, light.intensity);
    let to_light = spec_point_sub(light.position, position);
    let lightv = spec_normalize(to_light);
    let ambient = spec_rgb_scale(effective, m.ambient as int);
    let light_dot_normal = spec_dot(lightv, normalv);
    if light_dot_normal <= 0 || in_shadow {
        ambient
    } else {
        let diffuse = spec_rgb_scale(
            spec_rgb_scale(effective, m.diffuse as int),
            light_dot_normal,
        );
        let reflectv = spec_reflect(spec_vec_neg(lightv), normalv);
        let reflect_dot_eye = spec_dot(reflectv, eyev);
        if reflect_dot_eye <= 0 {
            spec_rgb_add(ambient, diffuse)
        } else {
            let factor = crate::fixed::spec_powi(reflect_dot_eye, spec_exponent(m.shininess as int));
            let specular = spec_rgb_scale(
                spec_rgb_scale(light.intensity, m.specular as int),
                factor,
            );
            spec_rgb_add(spec_rgb_add(ambient, diffuse), specular)
        }
    }
}

impl Default for Material {
    /// A matte white surface: ambient 0.1, diffuse 0.9, specular 0.9,
    /// shininess 200, no reflection, no transparency, vacuum refraction.
    fn default() -> (r: Self)
        ensures
            r == spec_default_material(),
    {
        Self {
            color: RGB::white(),
            ambient: 100_000,
            diffuse: 900_000,
            specular: 900_000,
            shininess: 200_000_000,
            reflective: 0,
            transparency: 0,
            refractive_index: SCALE,
            pattern: None,
        }
    }
}

impl Material {
    /// Shade a point on a surface under a point light.  The light must not
    /// sit exactly on the shaded point, and when a pattern is present both
    /// the shape's and the pattern's transforms must be invertible.
    pub fn lightning(
        &self,
        object: &Shape,
        light: PointLight,
        position: Point,
        eyev: Vector,
        normalv: Vector,
        in_shadow: bool,
    ) -> (r: RGB)
        requires
            self.pattern is Some ==> spec_determinant(object.transform.data, 4) != 0,
            self.pattern matches Some(p) ==> spec_determinant(p.transform.data, 4) != 0,
        ensures
            r == spec_lightning(
                *self,
                object.transform.data,
                light,
                position,
                eyev,
                normalv,
                in_shadow,
            ),
    {
        proof {
            reveal(spec_lightning);
        }
        let base: RGB = match &self.pattern {
            Some(p) => p.pattern_at_shape(object, position),
            None => self.color,
        };
        let effective: RGB = base.mul(light.get_intensity());
        let lightv: Vector = light.get_position().sub(position).normalize();
        let ambient: RGB = effective.scale(self.ambient);
        let light_dot_normal: i64 = lightv.dot(normalv);
        if light_dot_normal <= 0 || in_shadow {
            ambient
        } else {
            let diffuse: RGB = effective.scale(self.diffuse).scale(light_dot_normal);
            let reflectv: Vector = lightv.neg().reflect(normalv);
            let reflect_dot_eye: i64 = reflectv.dot(eyev);
            if reflect_dot_eye <= 0 {
                ambient.add(diffuse)
            } else {
                let exponent: u64 = if self.shininess >= 0 {
                    (self.shininess as u64) / (SCALE as u64)
                } else {
                    0
                };
                let factor: i64 = fx_powi(reflect_dot_eye, exponent);
                let specular: RGB = light.get_intensity().scale(self.specular).scale(factor);
                ambient.add(diffuse).add(specular)
            }
        }
    }
}

} // verus!
