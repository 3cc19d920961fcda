//! The camera's pixel-to-ray mapping, the render loop, the pixel buffer
//! and its portable-pixmap serialization.

use ray_tracer::{
    float_eq, Camera, Canvas, Point, Transformation, Vector, FX_PI, RGB, SCALE,
};

/// The fixed-point scalar closest to a real value.
fn fxv(x: f64) -> i64 {
    (x * SCALE as f64).round() as i64
}

#[test]
fn construct_camera() {
    let c = Camera::new(160, 120, FX_PI / 2);
    assert_eq!(c.hsize, 160);
    assert_eq!(c.vsize, 120);
    assert_eq!(c.field_of_view, FX_PI / 2);
    assert!(c.transform.init().approx_eq(&ray_tracer::Matrix::identity()));
}

#[test]
fn pixel_size_horizontal_camera() {
    let c = Camera::new(200, 125, FX_PI / 2);
    assert!(float_eq(c.pixel_size, fxv(0.01)));
}

#[test]
fn pixel_size_vertical_camera() {
    let c = Camera::new(125, 200, FX_PI / 2);
    assert!(float_eq(c.pixel_size, fxv(0.01)));
}

#[test]
fn ray_center_canvas_camera() {
    let c = Camera::new(201, 101, FX_PI / 2);
    let r = c.ray_for_pixel(100, 50);
    assert!(r.origin.approx_eq(Point::new(0, 0, 0)));
    assert!(r.direction.approx_eq(Vector::new(0, 0, fxv(-1.0))));
}

#[test]
fn ray_corner_canvas_camera() {
    let c = Camera::new(201, 101, FX_PI / 2);
    let r = c.ray_for_pixel(0, 0);
    assert!(r.origin.approx_eq(Point::new(0, 0, 0)));
    assert!(r.direction.approx_eq(Vector::new(fxv(0.66519), fxv(0.33259), fxv(-0.66851))));
}

#[test]
fn ray_transform_canvas_camera() {
    let mut c = Camera::new(201, 101, FX_PI / 2);
    c.transform = Transformation::new()
        .translation(0, fxv(-2.0), fxv(5.0))
        .rotate_y(FX_PI / 4);
    let r = c.ray_for_pixel(100, 50);
    let s = fxv(2.0_f64.sqrt() / 2.0);
    assert!(r.origin.approx_eq(Point::new(0, fxv(2.0), fxv(-5.0))));
    assert!(r.direction.approx_eq(Vector::new(s, 0, -s)));
}

#[test]
fn render_camera() {
    let w = ray_tracer::World::default();
    assert!(w.renderable());
    let mut c = Camera::new(11, 11, FX_PI / 2);
    let from = Point::new(0, 0, fxv(-5.0));
    let to = Point::new(0, 0, 0);
    let up = Vector::new(0, fxv(1.0), 0);
    c.transform = Transformation::view_transformation(from, to, up);
    let image = c.render(&w);
    assert!(image
        .pixel_at(5, 5)
        .approx_eq(RGB::new(fxv(0.38066), fxv(0.47583), fxv(0.2855))));
}

#[test]
fn create_canvas() {
    let c = Canvas::new(10, 20);
    assert_eq!(c.width, 10);
    assert_eq!(c.height, 20);
    for y in 0..c.height {
        for x in 0..c.width {
            assert_eq!(c.pixel_at(x, y), RGB::black());
        }
    }
}

#[test]
fn write_pixel_canvas() {
    let mut c = Canvas::new(10, 20);
    c.write_pixel(2, 3, RGB::red());
    assert_eq!(c.pixel_at(2, 3), RGB::red());
}

#[test]
#[should_panic]
fn write_pixel_fail_canvas() {
    let mut c = Canvas::new(10, 20);
    c.write_pixel(109, 10, RGB::red());
}

#[test]
fn ppm_construct_canvas() {
    let mut c = Canvas::new(5, 3);
    let c1 = RGB::new(fxv(1.5), 0, 0);
    let c2 = RGB::new(0, fxv(0.5), 0);
    let c3 = RGB::new(fxv(-0.5), 0, fxv(1.0));
    c.write_pixel(0, 0, c1);
    c.write_pixel(2, 1, c2);
    c.write_pixel(4, 2, c3);
    let ppm = c.to_ppm();
    let correct = String::from(
        "P3\n5 3\n255\n255 0 0 0 0 0 0 0 0 0 0 0 0 0 0\n0 0 0 0 0 0 0 127 0 0 0 0 0 0 0\n0 0 0 0 0 0 0 0 0 0 0 0 0 0 255\n\n",
    );
    assert_eq!(ppm, correct);
}

#[test]
fn ppm_line_limit_canvas() {
    let mut c = Canvas::new(10, 2);
    for y in 0..c.height {
        for x in 0..c.width {
            c.write_pixel(x, y, RGB::new(fxv(1.0), fxv(0.8), fxv(0.6)));
        }
    }
    let ppm = c.to_ppm();
    let correct = String::from(
        "P3\n10 2\n255\n255 204 153 255 204 153 255 204 153 255 204 153 255 204 153 255 204\n153 255 204 153 255 204 153 255 204 153 255 204 153\n255 204 153 255 204 153 255 204 153 255 204 153 255 204 153 255 204\n153 255 204 153 255 204 153 255 204 153 255 204 153\n\n",
    );
    assert_eq!(ppm, correct);
}
