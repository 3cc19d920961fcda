//! Sphere, plane, cube, cylinder and cone geometry.

use ray_tracer::{float_eq, Point, Ray, Shape, Transformation, Vector, FX_PI, SCALE};

/// The fixed-point scalar closest to a real value.
fn fxv(x: f64) -> i64 {
    (x * SCALE as f64).round() as i64
}

#[test]
fn intersect_sphere() {
    let r = Ray::new(Point::new(0, 0, fxv(-5.0)), Vector::new(0, 0, fxv(1.0)));
    let s = Shape::sphere();
    let xs = s.intersect(&r).unwrap();
    assert_eq!(xs.len(), 2);
    assert_eq!(xs[0].t, fxv(4.0));
    assert_eq!(xs[1].t, fxv(6.0));
}

#[test]
fn intersect_tangent_sphere() {
    let r = Ray::new(Point::new(0, fxv(1.0), fxv(-5.0)), Vector::new(0, 0, fxv(1.0)));
    let s = Shape::sphere();
    let xs = s.intersect(&r).unwrap();
    assert_eq!(xs.len(), 2);
    assert!(float_eq(xs[0].t, fxv(5.0)));
    assert!(float_eq(xs[1].t, fxv(5.0)));
}

#[test]
fn miss_sphere() {
    let r = Ray::new(Point::new(0, fxv(2.0), fxv(-5.0)), Vector::new(0, 0, fxv(1.0)));
    let s = Shape::sphere();
    assert!(s.intersect(&r).is_none());
}

#[test]
fn inside_sphere() {
    let r = Ray::new(Point::new(0, 0, 0), Vector::new(0, 0, fxv(1.0)));
    let s = Shape::sphere();
    let xs = s.intersect(&r).unwrap();
    assert_eq!(xs.len(), 2);
    assert_eq!(xs[0].t, fxv(-1.0));
    assert_eq!(xs[1].t, fxv(1.0));
}

#[test]
fn behind_sphere() {
    let r = Ray::new(Point::new(0, 0, fxv(5.0)), Vector::new(0, 0, fxv(1.0)));
    let s = Shape::sphere();
    let xs = s.intersect(&r).unwrap();
    assert_eq!(xs.len(), 2);
    assert_eq!(xs[0].t, fxv(-6.0));
    assert_eq!(xs[1].t, fxv(-4.0));
}

#[test]
fn object_sphere() {
    let r = Ray::new(Point::new(0, 0, fxv(-5.0)), Vector::new(0, 0, fxv(1.0)));
    let s = Shape::sphere();
    let xs = s.intersect(&r).unwrap();
    assert_eq!(xs.len(), 2);
    assert_eq!(xs[0].object, s.id);
    assert_eq!(xs[1].object, s.id);
}

#[test]
fn intersect_scaled_sphere() {
    let r = Ray::new(Point::new(0, 0, fxv(-5.0)), Vector::new(0, 0, fxv(1.0)));
    let mut s = Shape::sphere();
    s.set_transform(Transformation::new().scaling(fxv(2.0), fxv(2.0), fxv(2.0)));
    let xs = s.intersect(&r).unwrap();
    assert_eq!(xs.len(), 2);
    assert!(float_eq(xs[0].t, fxv(3.0)));
    assert!(float_eq(xs[1].t, fxv(7.0)));
}

#[test]
fn intersect_translated_sphere() {
    let r = Ray::new(Point::new(0, 0, fxv(-5.0)), Vector::new(0, 0, fxv(1.0)));
    let mut s = Shape::sphere();
    s.set_transform(Transformation::new().translation(fxv(5.0), 0, 0));
    assert!(s.intersect(&r).is_none());
}

#[test]
fn normal_x_sphere() {
    let s = Shape::sphere();
    let n = s.normal_at(Point::new(fxv(1.0), 0, 0));
    assert!(n.approx_eq(Vector::new(fxv(1.0), 0, 0)));
}

#[test]
fn normal_y_sphere() {
    let s = Shape::sphere();
    let n = s.normal_at(Point::new(0, fxv(1.0), 0));
    assert!(n.approx_eq(Vector::new(0, fxv(1.0), 0)));
}

#[test]
fn normal_z_sphere() {
    let s = Shape::sphere();
    let n = s.normal_at(Point::new(0, 0, fxv(1.0)));
    assert!(n.approx_eq(Vector::new(0, 0, fxv(1.0))));
}

#[test]
fn normal_notaxial_sphere() {
    let k = fxv(3.0_f64.sqrt() / 3.0);
    let s = Shape::sphere();
    let n = s.normal_at(Point::new(k, k, k));
    assert!(n.approx_eq(Vector::new(k, k, k)));
}

#[test]
fn normal_normalize_sphere() {
    let k = fxv(3.0_f64.sqrt() / 3.0);
    let s = Shape::sphere();
    let n = s.normal_at(Point::new(k, k, k));
    assert!(n.normalize().approx_eq(n));
}

#[test]
fn normal_translated_sphere() {
    let mut s = Shape::sphere();
    s.set_transform(Transformation::new().translation(0, fxv(1.0), 0));
    let n = s.normal_at(Point::new(0, fxv(1.70711), fxv(-0.70711)));
    assert!(n.approx_eq(Vector::new(0, fxv(0.70711), fxv(-0.70711))));
}

#[test]
fn normal_transformed_sphere() {
    let mut s = Shape::sphere();
    let t1 = Transformation::new().scaling(fxv(1.0), fxv(0.5), fxv(1.0));
    let t2 = Transformation::new().rotate_z(FX_PI / 5);
    s.set_transform(t1.mul(t2));
    let sq = fxv(2.0_f64.sqrt() / 2.0);
    let n = s.normal_at(Point::new(0, sq, -sq));
    assert!(n.approx_eq(Vector::new(0, fxv(0.97014), fxv(-0.24254))));
}

#[test]
fn glass_sphere_material() {
    let s = Shape::glass_sphere();
    assert_eq!(s.get_material().transparency, SCALE);
    assert_eq!(s.get_material().refractive_index, fxv(1.5));
}

#[test]
fn normal_const_plane() {
    let p = Shape::plane();
    let up = Vector::new(0, fxv(1.0), 0);
    assert!(p.local_normal_at(Point::new(0, 0, 0)).approx_eq(up));
    assert!(p.local_normal_at(Point::new(fxv(10.0), 0, fxv(-10.0))).approx_eq(up));
    assert!(p.local_normal_at(Point::new(fxv(-5.0), 0, fxv(150.0))).approx_eq(up));
}

#[test]
fn intersect_parallel_plane() {
    let p = Shape::plane();
    let r = Ray::new(Point::new(0, fxv(10.0), 0), Vector::new(0, 0, fxv(1.0)));
    assert!(p.local_intersect(&r).is_none());
}

#[test]
fn intersect_above_plane() {
    let p = Shape::plane();
    let r = Ray::new(Point::new(0, fxv(1.0), 0), Vector::new(0, fxv(-1.0), 0));
    let xs = p.local_intersect(&r).unwrap();
    assert_eq!(xs.len(), 1);
    assert_eq!(xs[0].t, fxv(1.0));
    assert_eq!(xs[0].object, p.id);
}

#[test]
fn intersect_below_plane() {
    let p = Shape::plane();
    let r = Ray::new(Point::new(0, fxv(-1.0), 0), Vector::new(0, fxv(1.0), 0));
    let xs = p.local_intersect(&r).unwrap();
    assert_eq!(xs.len(), 1);
    assert_eq!(xs[0].t, fxv(1.0));
    assert_eq!(xs[0].object, p.id);
}

#[test]
fn ray_cube() {
    let c = Shape::cube();
    let cases = [
        (
            Point::new(fxv(5.0), fxv(0.5), 0),
            Vector::new(fxv(-1.0), 0, 0),
            fxv(4.0),
            fxv(6.0),
        ),
        (
            Point::new(fxv(-5.0), fxv(0.5), 0),
            Vector::new(fxv(1.0), 0, 0),
            fxv(4.0),
            fxv(6.0),
        ),
        (
            Point::new(fxv(0.5), fxv(5.0), 0),
            Vector::new(0, fxv(-1.0), 0),
            fxv(4.0),
            fxv(6.0),
        ),
        (
            Point::new(fxv(0.5), fxv(-5.0), 0),
            Vector::new(0, fxv(1.0), 0),
            fxv(4.0),
            fxv(6.0),
        ),
        (
            Point::new(fxv(0.5), 0, fxv(5.0)),
            Vector::new(0, 0, fxv(-1.0)),
            fxv(4.0),
            fxv(6.0),
        ),
        (
            Point::new(fxv(0.5), 0, fxv(-5.0)),
            Vector::new(0, 0, fxv(1.0)),
            fxv(4.0),
            fxv(6.0),
        ),
        (
            Point::new(0, fxv(0.5), 0),
            Vector::new(0, 0, fxv(1.0)),
            fxv(-1.0),
            fxv(1.0),
        ),
    ];
    for (origin, direction, t0, t1) in cases {
        let xs = c.local_intersect(&Ray::new(origin, direction)).unwrap();
        assert_eq!(xs.len(), 2);
        assert!(float_eq(xs[0].t, t0));
        assert!(float_eq(xs[1].t, t1));
    }
}

#[test]
fn ray_miss_cube() {
    let c = Shape::cube();
    let cases = [
        (
            Point::new(fxv(-2.0), 0, 0),
            Vector::new(fxv(0.2673), fxv(0.5345), fxv(0.8018)),
        ),
        (
            Point::new(0, fxv(-2.0), 0),
            Vector::new(fxv(0.8018), fxv(0.2673), fxv(0.5345)),
        ),
        (
            Point::new(0, 0, fxv(-2.0)),
            Vector::new(fxv(0.5345), fxv(0.8018), fxv(0.2673)),
        ),
        (Point::new(fxv(2.0), 0, fxv(2.0)), Vector::new(0, 0, fxv(-1.0))),
        (Point::new(0, fxv(2.0), fxv(2.0)), Vector::new(0, fxv(-1.0), 0)),
        (Point::new(fxv(2.0), fxv(2.0), 0), Vector::new(fxv(-1.0), 0, 0)),
    ];
    for (origin, direction) in cases {
        assert!(c.local_intersect(&Ray::new(origin, direction)).is_none());
    }
}

#[test]
fn normal_cube() {
    let c = Shape::cube();
    let cases = [
        (Point::new(fxv(1.0), fxv(0.5), fxv(-0.8)), Vector::new(fxv(1.0), 0, 0)),
        (Point::new(fxv(-1.0), fxv(-0.2), fxv(0.9)), Vector::new(fxv(-1.0), 0, 0)),
        (Point::new(fxv(-0.4), fxv(1.0), fxv(-0.1)), Vector::new(0, fxv(1.0), 0)),
        (Point::new(fxv(0.3), fxv(-1.0), fxv(-0.7)), Vector::new(0, fxv(-1.0), 0)),
        (Point::new(fxv(-0.6), fxv(0.3), fxv(1.0)), Vector::new(0, 0, fxv(1.0))),
        (Point::new(fxv(0.4), fxv(0.4), fxv(-1.0)), Vector::new(0, 0, fxv(-1.0))),
        (Point::new(fxv(1.0), fxv(1.0), fxv(1.0)), Vector::new(fxv(1.0), 0, 0)),
        (Point::new(fxv(-1.0), fxv(-1.0), fxv(-1.0)), Vector::new(fxv(-1.0), 0, 0)),
    ];
    for (p, expected) in cases {
        assert!(c.local_normal_at(p).approx_eq(expected));
    }
}

#[test]
fn miss_cylinder() {
    let c = Shape::cylinder();
    let cases = [
        (Point::new(fxv(1.0), 0, 0), Vector::new(0, fxv(1.0), 0)),
        (Point::new(0, 0, 0), Vector::new(0, fxv(1.0), 0)),
        (
            Point::new(0, 0, fxv(-5.0)),
            Vector::new(fxv(1.0), fxv(1.0), fxv(1.0)).normalize(),
        ),
    ];
    for (origin, direction) in cases {
        assert!(c.local_intersect(&Ray::new(origin, direction)).is_none());
    }
}

#[test]
fn hit_cylinder() {
    let c = Shape::cylinder();
    let r = Ray::new(Point::new(0, 0, fxv(-5.0)), Vector::new(0, 0, fxv(1.0)));
    let xs = c.local_intersect(&r).unwrap();
    assert_eq!(xs.len(), 2);
    assert!(float_eq(xs[0].t, fxv(4.0)));
    assert!(float_eq(xs[1].t, fxv(6.0)));
}

#[test]
fn hit_constrained_cylinder() {
    let mut c = Shape::cylinder();
    c.set_cuts(fxv(1.0), fxv(2.0));
    let r = Ray::new(
        Point::new(0, fxv(1.5), fxv(-2.0)),
        Vector::new(0, 0, fxv(1.0)),
    );
    let xs = c.local_intersect(&r).unwrap();
    assert_eq!(xs.len(), 2);
}

#[test]
fn hit_caps_cylinder() {
    let mut c = Shape::cylinder();
    c.set_cuts(fxv(1.0), fxv(2.0));
    c.set_closed(true);
    let r = Ray::new(Point::new(0, fxv(3.0), 0), Vector::new(0, fxv(-1.0), 0));
    let xs = c.local_intersect(&r).unwrap();
    assert_eq!(xs.len(), 2);
}

#[test]
fn normal_cylinder() {
    let c = Shape::cylinder();
    assert!(c.local_normal_at(Point::new(fxv(1.0), 0, 0)).approx_eq(Vector::new(fxv(1.0), 0, 0)));
    assert!(c
        .local_normal_at(Point::new(0, fxv(5.0), fxv(-1.0)))
        .approx_eq(Vector::new(0, 0, fxv(-1.0))));
}

#[test]
fn hit_cone() {
    let c = Shape::cone();
    let r = Ray::new(Point::new(0, 0, fxv(-5.0)), Vector::new(0, 0, fxv(1.0)));
    let xs = c.local_intersect(&r).unwrap();
    assert_eq!(xs.len(), 2);
    assert!(float_eq(xs[0].t, fxv(5.0)));
    assert!(float_eq(xs[1].t, fxv(5.0)));
}

#[test]
fn hit_half_cone() {
    let c = Shape::cone();
    let r = Ray::new(
        Point::new(0, 0, fxv(-1.0)),
        Vector::new(0, fxv(1.0), fxv(1.0)).normalize(),
    );
    let xs = c.local_intersect(&r).unwrap();
    assert_eq!(xs.len(), 1);
    assert!(float_eq(xs[0].t, fxv(0.35355)));
}

#[test]
fn normal_cone() {
    let c = Shape::cone();
    let n = c.local_normal_at(Point::new(fxv(1.0), fxv(1.0), fxv(1.0)));
    assert!(n.approx_eq(Vector::new(fxv(1.0), fxv(-2.0_f64.sqrt()), fxv(1.0))));
}
