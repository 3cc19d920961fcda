//! The virtual camera: it maps pixel coordinates to world-space rays and
//! drives the render loop.

use vstd::prelude::*;

use crate::canvas::Canvas;
use crate::canvas::spec_canvas_wf;
use crate::color::RGB;
use crate::fixed::HALF_SCALE;
use crate::fixed::SCALE;
use crate::fixed::fx;
use crate::fixed::fx_add;
use crate::fixed::fx_div;
use crate::fixed::fx_mul;
use crate::fixed::fx_sub;
use crate::fixed::fx_tan;
use crate::fixed::sat64;
use crate::fixed::spec_add;
use crate::fixed::spec_div;
use crate::fixed::spec_mul;
use crate::fixed::spec_sub;
use crate::fixed::spec_tan;
use crate::matrix::Matrix;
use crate::matrix::spec_determinant;
use crate::matrix::spec_inverse;
use crate::matrix::spec_mat_mul_point;
use crate::point::Point;
use crate::point::spec_point_sub;
use crate::ray::Ray;
use crate::transformations::Transformation;
use crate::vector::Vector;
use crate::vector::spec_normalize;
use crate::world::World;
use crate::world::spec_color_at;
use crate::world::spec_render_ok;

verus! {

/// How many reflection and refraction bounces a render follows.
pub const DEFAULT_BOUNCES: usize = 5;

/// A camera: the canvas size it renders to, its field of view, its view
/// transformation, and the derived size of one pixel on the canvas one
/// unit in front of the camera.
#[derive(Clone, Copy, Debug)]
pub struct Camera {
    /// Horizontal size, in pixels, of the canvas the picture renders to.
    pub hsize: usize,
    /// Vertical size, in pixels, of the canvas.
    pub vsize: usize,
    /// The angle describing how much the camera can see.
    pub field_of_view: i64,
    /// How the world is oriented relative to the camera.
    pub transform: Transformation,
    /// The size of one pixel on the canvas one unit ahead.
    pub pixel_size: i64,
    /// Half the width of the canvas one unit ahead.
    pub half_width: i64,
    /// Half the height of the canvas one unit ahead.
    pub half_height: i64,
}

/// The derived geometry of a camera: half the view width and height one
/// unit ahead, and the size of one pixel, from the canvas size and the
/// field of view.
pub open spec fn spec_camera_geometry(hsize: int, vsize: int, fov: int) -> (int, int, int) {
    let half_view = spec_tan(spec_div(fov, 2 * (SCALE as int)));
    let aspect = spec_div(sat64(hsize * SCALE), sat64(vsize * SCALE));
    let half_width = if aspect >= SCALE as int {
        half_view
    } else {
        spec_mul(half_view, aspect)
    };
    let half_height = if aspect >= SCALE as int {
        spec_div(half_view, aspect)
    } else {
        half_view
    };
    let pixel_size = spec_div(spec_mul(half_width, 2 * (SCALE as int)), sat64(hsize * SCALE));
    (half_width, half_height, pixel_size)
}

/// The ray that starts at the camera and passes through the middle of
/// pixel `(x, y)`.
pub open spec fn spec_ray_for_pixel(c: Camera, x: int, y: int) -> Ray {
    let xoffset = spec_mul(spec_add(sat64(x * SCALE), HALF_SCALE as int), c.pixel_size as int);
    let yoffset = spec_mul(spec_add(sat64(y * SCALE), HALF_SCALE as int), c.pixel_size as int);
    let world_x = spec_sub(c.half_width as int, xoffset);
    let world_y = spec_sub(c.half_height as int, yoffset);
    let inv = spec_inverse(c.transform.data);
    let pixel = spec_mat_mul_point(
        inv,
        Point { x: world_x as i64, y: world_y as i64, z: crate::fixed::spec_neg(SCALE as int) as i64 },
    );
    let origin = spec_mat_mul_point(inv, Point { x: 0, y: 0, z: 0 });
    Ray { origin, direction: spec_normalize(spec_point_sub(pixel, origin)) }
}

impl Camera {
    /// Create a camera rendering to a canvas of the given size with the
    /// given field of view, looking along the identity orientation.
    pub fn new(hsize: usize, vsize: usize, field_of_view: i64) -> (r: Self)
        requires
            0 < hsize <= 100_000,
            0 < vsize <= 100_000,
        ensures
            r.hsize == hsize,
            r.vsize == vsize,
            r.field_of_view == field_of_view,
            r.transform.data == crate::matrix::spec_identity(),
            r.half_width == spec_camera_geometry(hsize as int, vsize as int, field_of_view as int).0,
            r.half_height == spec_camera_geometry(
                hsize as int,
                vsize as int,
                field_of_view as int,
            ).1,
            r.pixel_size == spec_camera_geometry(
                hsize as int,
                vsize as int,
                field_of_view as int,
            ).2,
    {
        let half_view: i64 = fx_tan(fx_div(field_of_view, 2 * SCALE));
        let hs: i64 = fx(hsize as i64);
        let vs: i64 = fx(vsize as i64);
        proof {
            assert(vs > 0);
            assert(hs > 0);
        }
        let aspect: i64 = fx_div(hs, vs);
        let half_width: i64;
        let half_height: i64;
        if aspect >= SCALE {
            half_width = half_view;
            proof {
                assert(aspect != 0);
            }
            half_height = fx_div(half_view, aspect);
        } else {
            half_width = fx_mul(half_view, aspect);
            half_height = half_view;
        }
        let pixel_size: i64 = fx_div(fx_mul(half_width, 2 * SCALE), hs);
        Self {
            hsize,
            vsize,
            field_of_view,
            transform: Transformation::new(),
            pixel_size,
            half_width,
            half_height,
        }
    }

    /// The ray that starts at the camera and passes through the middle of
    /// pixel `(x, y)`.  The camera's transform must be invertible.
    pub fn ray_for_pixel(&self, x: usize, y: usize) -> (r: Ray)
        requires
            spec_determinant(self.transform.data, 4) != 0,
            x <= 100_000,
            y <= 100_000,
        ensures
            r == spec_ray_for_pixel(*self, x as int, y as int),
    {
        let xoffset: i64 = fx_mul(fx_add(fx(x as i64), HALF_SCALE), self.pixel_size);
        let yoffset: i64 = fx_mul(fx_add(fx(y as i64), HALF_SCALE), self.pixel_size);
        let world_x: i64 = fx_sub(self.half_width, xoffset);
        let world_y: i64 = fx_sub(self.half_height, yoffset);
        let inv: Matrix = match self.transform.init().inverse(4) {
            Ok(m) => m,
            Err(_) => {
                proof {
                    assert(false);
                }
                Matrix::identity()
            },
        };
        let pixel: Point = inv.mul_point(Point { x: world_x, y: world_y, z: -SCALE });
        let origin: Point = inv.mul_point(Point { x: 0, y: 0, z: 0 });
        let direction: Vector = pixel.sub(origin).normalize();
        Ray { origin, direction }
    }

    /// Render a view of the given world: one ray per pixel, each shaded
    /// with the default bounce budget.
    pub fn render(&self, world: &World) -> (r: Canvas)
        requires
            spec_render_ok(*world),
            world.light is Some,
            spec_determinant(self.transform.data, 4) != 0,
            0 < self.hsize <= 65_000,
            0 < self.vsize <= 65_000,
        ensures
            r.width == self.hsize,
            r.height == self.vsize,
            spec_canvas_wf(r),
            forall|x: int, y: int|
                0 <= x < self.hsize && 0 <= y < self.vsize ==> r.pixels[x + y * self.hsize]
                    == spec_color_at(
                    *world,
                    spec_ray_for_pixel(*self, x, y),
                    DEFAULT_BOUNCES as int,
                ),
    {
        proof {
            assert(self.hsize * self.vsize <= 65_000 * 65_000) by (nonlinear_arith)
                requires
                    0 < self.hsize <= 65_000,
                    0 < self.vsize <= 65_000,
            ;
        }
        let mut canvas: Canvas = Canvas::new(self.hsize, self.vsize);
        let mut y: usize = 0;
        while y < self.vsize
            invariant
                spec_render_ok(*world),
                world.light is Some,
                spec_determinant(self.transform.data, 4) != 0,
                0 < self.hsize <= 65_000,
                0 < self.vsize <= 65_000,
                y <= self.vsize,
                canvas.width == self.hsize,
                canvas.height == self.vsize,
                spec_canvas_wf(canvas),
                forall|px: int, py: int|
                    0 <= px < self.hsize && 0 <= py < y ==> canvas.pixels[px + py * self.hsize]
                        == spec_color_at(
                        *world,
                        spec_ray_for_pixel(*self, px, py),
                        DEFAULT_BOUNCES as int,
                    ),
            decreases self.vsize - y,
        {
            let mut x: usize = 0;
            while x < self.hsize
                invariant
                    spec_render_ok(*world),
                    world.light is Some,
                    spec_determinant(self.transform.data, 4) != 0,
                    0 < self.hsize <= 65_000,
                    0 < self.vsize <= 65_000,
                    y < self.vsize,
                    x <= self.hsize,
                    canvas.width == self.hsize,
                    canvas.height == self.vsize,
                    spec_canvas_wf(canvas),
                    forall|px: int, py: int|
                        0 <= px < self.hsize && 0 <= py < y ==> canvas.pixels[px + py
                            * self.hsize] == spec_color_at(
                            *world,
                            spec_ray_for_pixel(*self, px, py),
                            DEFAULT_BOUNCES as int,
                        ),
                    forall|px: int|
                        0 <= px < x ==> canvas.pixels[px + y * self.hsize] == spec_color_at(
                            *world,
                            spec_ray_for_pixel(*self, px, y as int),
                            DEFAULT_BOUNCES as int,
                        ),
                decreases self.hsize - x,
            {
                let ray: Ray = self.ray_for_pixel(x, y);
                let color: RGB = world.color_at(&ray, DEFAULT_BOUNCES);
                let ghost prior: Seq<RGB> = canvas.pixels@;
                canvas.write_pixel(x, y, color);
                proof {
                    assert(0 <= x + y * self.hsize < self.hsize * self.vsize)
                        by (nonlinear_arith)
                        requires
                            0 <= (x as int) < self.hsize,
                            0 <= (y as int) < self.vsize,
                    ;
                    assert(prior.len() == self.hsize * self.vsize);
                    assert forall|px: int, py: int|
                        0 <= px < self.hsize && 0 <= py < y implies #[trigger] canvas.pixels[px
                        + py * self.hsize] == spec_color_at(
                        *world,
                        spec_ray_for_pixel(*self, px, py),
                        DEFAULT_BOUNCES as int,
                    ) by {
                        assert(px + py * self.hsize != x + y * self.hsize && 0 <= px + py
                            * self.hsize < self.hsize * self.vsize) by (nonlinear_arith)
                            requires
                                0 <= px < self.hsize,
                                0 <= x < self.hsize,
                                0 <= py < y,
                                (y as int) < self.vsize,
                        ;
                        assert(canvas.pixels[px + py * self.hsize] == prior[px + py
                            * self.hsize]);
                    }
                    assert forall|px: int|
                        0 <= px < x + 1 implies #[trigger] canvas.pixels[px + y * self.hsize]
                        == spec_color_at(
                        *world,
                        spec_ray_for_pixel(*self, px, y as int),
                        DEFAULT_BOUNCES as int,
                    ) by {
                        assert(0 <= px + y * self.hsize < self.hsize * self.vsize)
                            by (nonlinear_arith)
                            requires
                                0 <= px < self.hsize,
                                0 <= (y as int) < self.vsize,
                        ;
                        if px < x {
                            assert(px + y * self.hsize != x + y * self.hsize);
                            assert(canvas.pixels[px + y * self.hsize] == prior[px + y
                                * self.hsize]);
                        } else {
                            assert(canvas.pixels[x + y * self.hsize] == color);
                        }
                    }
                }
                x = x + 1;
            }
            y = y + 1;
        }
        canvas
    }
}

} // verus!
