//! Hit selection, precomputed shading inputs and Schlick reflectance.

use ray_tracer::{
    float_eq, hit, Intersection, Point, Ray, Shape, Transformation, Vector, World, EPSILON, SCALE,
};

/// The fixed-point scalar closest to a real value.
fn fxv(x: f64) -> i64 {
    (x * SCALE as f64).round() as i64
}

/// A world holding one free-standing shape, for computing shading inputs.
fn world_with(shape: Shape) -> World {
    let mut w = World::new();
    w.add_object(shape);
    w
}

#[test]
fn sphere_intersection() {
    let s = Shape::sphere();
    let i = Intersection::new(fxv(3.5), s.id);
    assert_eq!(i.t, fxv(3.5));
    assert_eq!(i.object, s.id);
}

#[test]
fn intersections() {
    let s = Shape::sphere();
    let i1 = Intersection::new(fxv(1.0), s.id);
    let i2 = Intersection::new(fxv(2.0), s.id);
    let xs = vec![i1, i2];
    assert_eq!(xs.len(), 2);
    assert_eq!(xs[0].t, fxv(1.0));
    assert_eq!(xs[1].t, fxv(2.0));
}

#[test]
fn positive_hit() {
    let s = Shape::sphere();
    let i1 = Intersection::new(fxv(1.0), s.id);
    let i2 = Intersection::new(fxv(2.0), s.id);
    let xs = vec![i1, i2];
    assert_eq!(hit(&xs).unwrap(), i1);
}

#[test]
fn negative_hit() {
    let s = Shape::sphere();
    let i1 = Intersection::new(fxv(-1.0), s.id);
    let i2 = Intersection::new(fxv(1.0), s.id);
    let xs = vec![i2, i1];
    assert_eq!(hit(&xs).unwrap(), i2);
}

#[test]
fn negative_all_hit() {
    let s = Shape::sphere();
    let i1 = Intersection::new(fxv(-2.0), s.id);
    let i2 = Intersection::new(fxv(-1.0), s.id);
    let xs = vec![i2, i1];
    assert!(hit(&xs).is_none());
}

#[test]
fn lowest_nonnegative_hit() {
    let s = Shape::sphere();
    let i1 = Intersection::new(fxv(5.0), s.id);
    let i2 = Intersection::new(fxv(7.0), s.id);
    let i3 = Intersection::new(fxv(-3.0), s.id);
    let i4 = Intersection::new(fxv(2.0), s.id);
    let xs = vec![i1, i2, i3, i4];
    assert_eq!(hit(&xs).unwrap(), i4);
}

#[test]
fn precompute_intersection() {
    let r = Ray::new(Point::new(0, 0, fxv(-5.0)), Vector::new(0, 0, fxv(1.0)));
    let w = world_with(Shape::sphere());
    let i = Intersection::new(fxv(4.0), 0);
    let xs = vec![i];
    let comps = i.prepare_computations(&r, &xs, &w);
    assert_eq!(comps.t, i.t);
    assert_eq!(comps.object, 0);
    assert!(comps.point.approx_eq(Point::new(0, 0, fxv(-1.0))));
    assert!(comps.eyev.approx_eq(Vector::new(0, 0, fxv(-1.0))));
    assert!(comps.normalv.approx_eq(Vector::new(0, 0, fxv(-1.0))));
}

#[test]
fn precompute_outside_intersection() {
    let r = Ray::new(Point::new(0, 0, fxv(-5.0)), Vector::new(0, 0, fxv(1.0)));
    let w = world_with(Shape::sphere());
    let i = Intersection::new(fxv(4.0), 0);
    let xs = vec![i];
    let comps = i.prepare_computations(&r, &xs, &w);
    assert!(!comps.inside);
}

#[test]
fn precompute_inside_intersection() {
    let r = Ray::new(Point::new(0, 0, 0), Vector::new(0, 0, fxv(1.0)));
    let w = world_with(Shape::sphere());
    let i = Intersection::new(fxv(1.0), 0);
    let xs = vec![i];
    let comps = i.prepare_computations(&r, &xs, &w);
    assert!(comps.point.approx_eq(Point::new(0, 0, fxv(1.0))));
    assert!(comps.eyev.approx_eq(Vector::new(0, 0, fxv(-1.0))));
    assert!(comps.inside);
    assert!(comps.normalv.approx_eq(Vector::new(0, 0, fxv(-1.0))));
}

#[test]
fn hit_offset_point_intersection() {
    let r = Ray::new(Point::new(0, 0, fxv(-5.0)), Vector::new(0, 0, fxv(1.0)));
    let mut shape = Shape::sphere();
    shape.set_transform(Transformation::new().translation(0, 0, fxv(1.0)));
    let w = world_with(shape);
    let i = Intersection::new(fxv(5.0), 0);
    let xs = vec![i];
    let comps = i.prepare_computations(&r, &xs, &w);
    assert!(comps.over_point.z < -EPSILON / 2);
    assert!(comps.point.z > comps.over_point.z);
}

#[test]
fn under_point_intersection() {
    let r = Ray::new(Point::new(0, 0, fxv(-5.0)), Vector::new(0, 0, fxv(1.0)));
    let mut shape = Shape::glass_sphere();
    shape.set_transform(Transformation::new().translation(0, 0, fxv(1.0)));
    let w = world_with(shape);
    let i = Intersection::new(fxv(5.0), 0);
    let xs = vec![i];
    let comps = i.prepare_computations(&r, &xs, &w);
    assert!(comps.under_point.z > EPSILON / 2);
    assert!(comps.point.z < comps.under_point.z);
}

#[test]
fn precompute_reflect_intersection() {
    let shape = Shape::plane();
    let w = world_with(shape);
    let s = fxv(2.0_f64.sqrt() / 2.0);
    let r = Ray::new(Point::new(0, fxv(1.0), fxv(-1.0)), Vector::new(0, -s, s));
    let i = Intersection::new(fxv(2.0_f64.sqrt()), 0);
    let xs = vec![i];
    let comps = i.prepare_computations(&r, &xs, &w);
    assert!(comps.reflectv.approx_eq(Vector::new(0, s, s)));
}

#[test]
fn find_n1_n2_intersection() {
    let mut w = World::new();
    let mut a = Shape::glass_sphere();
    a.set_transform(Transformation::new().scaling(fxv(2.0), fxv(2.0), fxv(2.0)));
    let mut ma = *a.get_material();
    ma.refractive_index = fxv(1.5);
    a.set_material(ma);
    w.add_object(a);
    let mut b = Shape::glass_sphere();
    b.set_transform(Transformation::new().translation(0, 0, fxv(-0.25)));
    let mut mb = *b.get_material();
    mb.refractive_index = fxv(2.0);
    b.set_material(mb);
    w.add_object(b);
    let mut c = Shape::glass_sphere();
    c.set_transform(Transformation::new().translation(0, 0, fxv(0.25)));
    let mut mc = *c.get_material();
    mc.refractive_index = fxv(2.5);
    c.set_material(mc);
    w.add_object(c);
    let r = Ray::new(Point::new(0, 0, fxv(-4.0)), Vector::new(0, 0, fxv(1.0)));
    let xs = vec![
        Intersection::new(fxv(2.0), 0),
        Intersection::new(fxv(2.75), 1),
        Intersection::new(fxv(3.25), 2),
        Intersection::new(fxv(4.75), 1),
        Intersection::new(fxv(5.25), 2),
        Intersection::new(fxv(6.0), 0),
    ];
    let expected = [
        (fxv(1.0), fxv(1.5)),
        (fxv(1.5), fxv(2.0)),
        (fxv(2.0), fxv(2.5)),
        (fxv(2.5), fxv(2.5)),
        (fxv(2.5), fxv(1.5)),
        (fxv(1.5), fxv(1.0)),
    ];
    for k in 0..6 {
        let comps = xs[k].prepare_computations(&r, &xs, &w);
        assert_eq!(comps.n1, expected[k].0);
        assert_eq!(comps.n2, expected[k].1);
    }
}

#[test]
fn schlick_total_internal_reflection_intersection() {
    let shape = Shape::glass_sphere();
    let w = world_with(shape);
    let s = fxv(2.0_f64.sqrt() / 2.0);
    let r = Ray::new(Point::new(0, 0, s), Vector::new(0, fxv(1.0), 0));
    let xs = vec![Intersection::new(-s, 0), Intersection::new(s, 0)];
    let comps = xs[1].prepare_computations(&r, &xs, &w);
    let reflectance = comps.schlick();
    assert_eq!(reflectance, SCALE);
}

#[test]
fn schlick_perpendicular_intersection() {
    let shape = Shape::glass_sphere();
    let w = world_with(shape);
    let r = Ray::new(Point::new(0, 0, 0), Vector::new(0, fxv(1.0), 0));
    let xs = vec![
        Intersection::new(fxv(-1.0), 0),
        Intersection::new(fxv(1.0), 0),
    ];
    let comps = xs[1].prepare_computations(&r, &xs, &w);
    let reflectance = comps.schlick();
    assert!(float_eq(reflectance, fxv(0.04)));
}

#[test]
fn schlick_n1_smaller_n1_intersection() {
    let shape = Shape::glass_sphere();
    let w = world_with(shape);
    let r = Ray::new(Point::new(0, fxv(0.99), fxv(-2.0)), Vector::new(0, 0, fxv(1.0)));
    let xs = vec![Intersection::new(fxv(1.8589), 0)];
    let comps = xs[0].prepare_computations(&r, &xs, &w);
    let reflectance = comps.schlick();
    assert!(float_eq(reflectance, fxv(0.48873)));
}
