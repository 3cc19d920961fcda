//! Vector, point and color arithmetic.

use ray_tracer::{clamp, float_eq, Point, Vector, RGB, SCALE};
use ray_tracer::{fx_cos, fx_sin, fx_tan, FX_HALF_PI, FX_PI};
use std::cmp::Ordering;

/// The fixed-point scalar closest to a real value.
fn fxv(x: f64) -> i64 {
    (x * SCALE as f64).round() as i64
}

#[test]
fn create_vector() {
    let v = Vector::new(fxv(1.0), fxv(2.0), fxv(3.0));
    assert_eq!(fxv(1.0), v.x);
    assert_eq!(fxv(2.0), v.y);
    assert_eq!(fxv(3.0), v.z);
}

#[test]
fn add_vectors() {
    let a = Vector::new(fxv(1.0), fxv(2.0), fxv(3.0));
    let b = Vector::new(fxv(4.0), fxv(5.0), fxv(6.0));
    let c = a.add(b);
    assert_eq!(c.x, fxv(5.0));
    assert_eq!(c.y, fxv(7.0));
    assert_eq!(c.z, fxv(9.0));
}

#[test]
fn sub_vectors() {
    let a = Vector::new(fxv(1.0), fxv(2.0), fxv(3.0));
    let b = Vector::new(fxv(4.0), fxv(5.0), fxv(6.0));
    let c = b.sub(a);
    assert_eq!(c.x, fxv(3.0));
    assert_eq!(c.y, fxv(3.0));
    assert_eq!(c.z, fxv(3.0));
}

#[test]
fn neg_vectors() {
    let a = Vector::new(fxv(1.0), fxv(2.0), fxv(3.0));
    let b = a.neg();
    assert_eq!(b.x, fxv(-1.0));
    assert_eq!(b.y, fxv(-2.0));
    assert_eq!(b.z, fxv(-3.0));
}

#[test]
fn scal_mult_vector() {
    let a = Vector::new(fxv(-2.0), fxv(3.0), fxv(-4.0));
    let b = a.scale(fxv(3.5));
    assert_eq!(b.x, fxv(-7.0));
    assert_eq!(b.y, fxv(10.5));
    assert_eq!(b.z, fxv(-14.0));
}

#[test]
fn scal_div_vector() {
    let a = Vector::new(fxv(-2.0), fxv(3.0), fxv(-4.0));
    let b = a.div(fxv(2.0));
    assert_eq!(b.x, fxv(-1.0));
    assert_eq!(b.y, fxv(1.5));
    assert_eq!(b.z, fxv(-2.0));
}

#[test]
fn mag_x_vector() {
    let v = Vector::new(fxv(1.0), 0, 0);
    assert_eq!(v.magnitude(), fxv(1.0));
}

#[test]
fn mag_y_vector() {
    let v = Vector::new(0, fxv(1.0), 0);
    assert_eq!(v.magnitude(), fxv(1.0));
}

#[test]
fn mag_z_vector() {
    let v = Vector::new(0, 0, fxv(1.0));
    assert_eq!(v.magnitude(), fxv(1.0));
}

#[test]
fn mag_pos_vector() {
    let v = Vector::new(fxv(1.0), fxv(2.0), fxv(3.0));
    assert!(float_eq(v.magnitude(), fxv(14.0_f64.sqrt())));
}

#[test]
fn mag_neg_vector() {
    let v = Vector::new(fxv(-1.0), fxv(-2.0), fxv(-3.0));
    assert!(float_eq(v.magnitude(), fxv(14.0_f64.sqrt())));
}

#[test]
fn norm_gives_1_vector() {
    let v = Vector::new(fxv(4.0), 0, 0);
    assert!(v.normalize().approx_eq(Vector::new(fxv(1.0), 0, 0)));
}

#[test]
fn norm_approx_vector() {
    let v = Vector::new(fxv(1.0), fxv(2.0), fxv(3.0));
    assert!(v.normalize().approx_eq(Vector::new(fxv(0.26726), fxv(0.53452), fxv(0.80178))));
}

#[test]
fn norm_magnitude_vector() {
    let v = Vector::new(fxv(1.0), fxv(2.0), fxv(3.0));
    assert!(float_eq(v.normalize().magnitude(), fxv(1.0)));
}

#[test]
fn norm_idempotent_vector() {
    let v = Vector::new(fxv(1.0), fxv(2.0), fxv(3.0));
    let once = v.normalize();
    let twice = once.normalize();
    assert!(once.approx_eq(twice));
}

#[test]
fn dot_vector() {
    let a = Vector::new(fxv(1.0), fxv(2.0), fxv(3.0));
    let b = Vector::new(fxv(2.0), fxv(3.0), fxv(4.0));
    assert_eq!(a.dot(b), fxv(20.0));
}

#[test]
fn cross_vector() {
    let a = Vector::new(fxv(1.0), fxv(2.0), fxv(3.0));
    let b = Vector::new(fxv(2.0), fxv(3.0), fxv(4.0));
    assert!(a.cross(b).approx_eq(Vector::new(fxv(-1.0), fxv(2.0), fxv(-1.0))));
    assert!(b.cross(a).approx_eq(Vector::new(fxv(1.0), fxv(-2.0), fxv(1.0))));
}

#[test]
fn reflect_45_vector() {
    let v = Vector::new(fxv(1.0), fxv(-1.0), 0);
    let n = Vector::new(0, fxv(1.0), 0);
    assert!(v.reflect(n).approx_eq(Vector::new(fxv(1.0), fxv(1.0), 0)));
}

#[test]
fn create_point() {
    let p = Point::new(fxv(1.0), fxv(2.0), fxv(3.0));
    assert_eq!(fxv(1.0), p.x);
    assert_eq!(fxv(2.0), p.y);
    assert_eq!(fxv(3.0), p.z);
}

#[test]
fn add_points() {
    let a = Point::new(fxv(1.0), fxv(2.0), fxv(3.0));
    let b = Vector::new(fxv(4.0), fxv(5.0), fxv(6.0));
    let c = a.add_vec(b);
    assert_eq!(c.x, fxv(5.0));
    assert_eq!(c.y, fxv(7.0));
    assert_eq!(c.z, fxv(9.0));
}

#[test]
fn sub_points() {
    let a = Point::new(fxv(1.0), fxv(2.0), fxv(3.0));
    let b = Point::new(fxv(4.0), fxv(5.0), fxv(6.0));
    let c = b.sub(a);
    assert_eq!(c.x, fxv(3.0));
    assert_eq!(c.y, fxv(3.0));
    assert_eq!(c.z, fxv(3.0));
}

#[test]
fn neg_points() {
    let a = Point::new(fxv(1.0), fxv(2.0), fxv(3.0));
    let b = a.neg();
    assert_eq!(b.x, fxv(-1.0));
    assert_eq!(b.y, fxv(-2.0));
    assert_eq!(b.z, fxv(-3.0));
}

#[test]
fn create_color() {
    let c = RGB::new(fxv(-0.5), fxv(0.4), fxv(1.7));
    assert_eq!(c.red, fxv(-0.5));
    assert_eq!(c.green, fxv(0.4));
    assert_eq!(c.blue, fxv(1.7));
}

#[test]
fn add_color() {
    let c1 = RGB::new(fxv(0.9), fxv(0.6), fxv(0.75));
    let c2 = RGB::new(fxv(0.7), fxv(0.1), fxv(0.25));
    assert!(c1.add(c2).approx_eq(RGB::new(fxv(1.6), fxv(0.7), fxv(1.0))));
}

#[test]
fn sub_color() {
    let c1 = RGB::new(fxv(0.9), fxv(0.6), fxv(0.75));
    let c2 = RGB::new(fxv(0.7), fxv(0.1), fxv(0.25));
    assert!(c1.sub(c2).approx_eq(RGB::new(fxv(0.2), fxv(0.5), fxv(0.5))));
}

#[test]
fn mul_color_color() {
    let c1 = RGB::new(fxv(1.0), fxv(0.2), fxv(0.4));
    let c2 = RGB::new(fxv(0.9), fxv(1.0), fxv(0.1));
    assert!(c1.mul(c2).approx_eq(RGB::new(fxv(0.9), fxv(0.2), fxv(0.04))));
}

#[test]
fn mul_scalar_color() {
    let c = RGB::new(fxv(0.2), fxv(0.3), fxv(0.4));
    assert!(c.scale(fxv(2.0)).approx_eq(RGB::new(fxv(0.4), fxv(0.6), fxv(0.8))));
}

#[test]
fn clamp_color() {
    assert_eq!(clamp(fxv(1.5)), 255);
    assert_eq!(clamp(fxv(0.7)), 178);
    assert_eq!(clamp(fxv(-0.2)), 0);
}

#[test]
fn clamp_rgb_color() {
    let c = RGB::new(fxv(-0.2), fxv(0.7), fxv(1.5));
    assert_eq!(String::from("0 178 255"), c.ppm_clamp());
}

#[test]
fn cmp_color_components() {
    assert_eq!(ray_tracer::float_cmp(fxv(1.0), fxv(1.0)), Ordering::Equal);
    assert_eq!(ray_tracer::float_cmp(fxv(1.0), fxv(1.00005)), Ordering::Equal);
    assert_eq!(ray_tracer::float_cmp(fxv(1.0), fxv(2.0)), Ordering::Less);
    assert_eq!(ray_tracer::float_cmp(fxv(2.0), fxv(1.0)), Ordering::Greater);
}

#[test]
fn rgb_string_array_color() {
    let c = RGB::new(fxv(-0.2), fxv(0.7), fxv(1.5));
    let parts = c.rgb_string_array();
    assert_eq!(parts[0], "0");
    assert_eq!(parts[1], "178");
    assert_eq!(parts[2], "255");
}

#[test]
fn sqrt_whole_values() {
    assert_eq!(ray_tracer::fx_sqrt(fxv(4.0)), fxv(2.0));
    assert_eq!(ray_tracer::fx_sqrt(fxv(9.0)), fxv(3.0));
    assert_eq!(ray_tracer::fx_sqrt(0), 0);
    assert!(float_eq(ray_tracer::fx_sqrt(fxv(2.0)), fxv(2.0_f64.sqrt())));
}

#[test]
fn trig_quarter_turns() {
    assert!(float_eq(fx_sin(0), 0));
    assert!(float_eq(fx_sin(FX_HALF_PI), fxv(1.0)));
    assert!(float_eq(fx_sin(FX_PI / 6), fxv(0.5)));
    assert!(float_eq(fx_cos(0), fxv(1.0)));
    assert!(float_eq(fx_cos(FX_PI), fxv(-1.0)));
    assert!(float_eq(fx_tan(FX_PI / 4), fxv(1.0)));
}
