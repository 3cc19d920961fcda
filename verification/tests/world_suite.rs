//! World queries: intersection search, shadows, shading and recursion.

use ray_tracer::{
    float_eq, Intersection, Material, Point, PointLight, Ray, Shape, Transformation, Vector,
    World, RGB, SCALE,
};

/// The fixed-point scalar closest to a real value.
fn fxv(x: f64) -> i64 {
    (x * SCALE as f64).round() as i64
}

#[test]
fn create_world() {
    let w = World::new();
    assert!(w.objects.is_empty());
    assert!(w.light.is_none());
}

#[test]
fn default_world() {
    let w = World::default();
    assert!(w.renderable());
    assert_eq!(w.objects.len(), 2);
    let light = w.light.unwrap();
    assert!(light.get_intensity().approx_eq(RGB::white()));
    assert!(light.get_position().approx_eq(Point::new(fxv(-10.0), fxv(10.0), fxv(-10.0))));
    let m = w.get_object(0).unwrap().get_material();
    assert!(m.color.approx_eq(RGB::new(fxv(0.8), fxv(1.0), fxv(0.6))));
    assert_eq!(m.diffuse, fxv(0.7));
    assert_eq!(m.specular, fxv(0.2));
    assert_eq!(*w.get_object(1).unwrap().get_material(), Material::default());
}

#[test]
fn intersect_world_ray_world() {
    let w = World::default();
    let r = Ray::new(Point::new(0, 0, fxv(-5.0)), Vector::new(0, 0, fxv(1.0)));
    let xs = w.intersect_world(&r).unwrap();
    assert_eq!(xs.len(), 4);
    assert!(float_eq(xs[0].t, fxv(4.0)));
    assert!(float_eq(xs[1].t, fxv(4.5)));
    assert!(float_eq(xs[2].t, fxv(5.5)));
    assert!(float_eq(xs[3].t, fxv(6.0)));
}

#[test]
fn shading_outside_intersection() {
    let w = World::default();
    let r = Ray::new(Point::new(0, 0, fxv(-5.0)), Vector::new(0, 0, fxv(1.0)));
    let i = Intersection::new(fxv(4.0), 0);
    let xs = vec![i];
    let comps = i.prepare_computations(&r, &xs, &w);
    let c = w.shade_hit(&comps, 0);
    assert!(c.approx_eq(RGB::new(fxv(0.38066), fxv(0.47583), fxv(0.2855))));
}

#[test]
fn shading_inside_intersection() {
    let mut w = World::default();
    w.set_light(PointLight::new(Point::new(0, fxv(0.25), 0), RGB::white()));
    let r = Ray::new(Point::new(0, 0, 0), Vector::new(0, 0, fxv(1.0)));
    let i = Intersection::new(fxv(0.5), 1);
    let xs = vec![i];
    let comps = i.prepare_computations(&r, &xs, &w);
    let c = w.shade_hit(&comps, 0);
    assert!(c.approx_eq(RGB::new(fxv(0.90498), fxv(0.90498), fxv(0.90498))));
}

#[test]
fn color_miss_world() {
    let w = World::default();
    let r = Ray::new(Point::new(0, 0, fxv(-5.0)), Vector::new(0, fxv(1.0), 0));
    assert!(w.color_at(&r, 0).approx_eq(RGB::black()));
}

#[test]
fn color_hit_world() {
    let w = World::default();
    let r = Ray::new(Point::new(0, 0, fxv(-5.0)), Vector::new(0, 0, fxv(1.0)));
    let c = w.color_at(&r, 0);
    assert!(c.approx_eq(RGB::new(fxv(0.38066), fxv(0.47583), fxv(0.2855))));
}

#[test]
fn color_behind_intersection_world() {
    let mut w = World::default();
    let mut outer = *w.get_object(0).unwrap().get_material();
    outer.ambient = fxv(1.0);
    w.set_object_material(0, outer);
    let mut inner = *w.get_object(1).unwrap().get_material();
    inner.ambient = fxv(1.0);
    w.set_object_material(1, inner);
    let r = Ray::new(Point::new(0, 0, fxv(0.75)), Vector::new(0, 0, fxv(-1.0)));
    let c = w.color_at(&r, 0);
    assert!(c.approx_eq(inner.color));
}

#[test]
fn point_collinear_light_world() {
    let w = World::default();
    assert!(!w.is_shadowed(Point::new(0, fxv(10.0), 0)));
}

#[test]
fn point_object_light_world() {
    let w = World::default();
    assert!(w.is_shadowed(Point::new(fxv(10.0), fxv(-10.0), fxv(10.0))));
}

#[test]
fn point_light_object_world() {
    let w = World::default();
    assert!(!w.is_shadowed(Point::new(fxv(-20.0), fxv(20.0), fxv(-20.0))));
}

#[test]
fn object_point_light_world() {
    let w = World::default();
    assert!(!w.is_shadowed(Point::new(fxv(-2.0), fxv(2.0), fxv(-2.0))));
}

#[test]
fn shade_hit_shadow_world() {
    let mut w = World::new();
    w.set_light(PointLight::new(Point::new(0, 0, fxv(-10.0)), RGB::white()));
    w.add_object(Shape::sphere());
    let mut s2 = Shape::sphere();
    s2.set_transform(Transformation::new().translation(0, 0, fxv(10.0)));
    w.add_object(s2);
    assert!(w.renderable());
    let r = Ray::new(Point::new(0, 0, fxv(5.0)), Vector::new(0, 0, fxv(1.0)));
    let i = Intersection::new(fxv(4.0), 1);
    let xs = vec![i];
    let comps = i.prepare_computations(&r, &xs, &w);
    let c = w.shade_hit(&comps, 0);
    assert!(c.approx_eq(RGB::new(fxv(0.1), fxv(0.1), fxv(0.1))));
}

#[test]
fn nonreflective_object() {
    let mut w = World::default();
    let mut m = *w.get_object(1).unwrap().get_material();
    m.ambient = fxv(1.0);
    w.set_object_material(1, m);
    let r = Ray::new(Point::new(0, 0, 0), Vector::new(0, 0, fxv(1.0)));
    let i = Intersection::new(fxv(1.0), 1);
    let xs = vec![i];
    let comps = i.prepare_computations(&r, &xs, &w);
    assert!(w.reflected_color(&comps, 4).approx_eq(RGB::black()));
}

#[test]
fn reflective_object() {
    let mut w = World::default();
    let mut shape = Shape::plane();
    let mut m = *shape.get_material();
    m.reflective = fxv(0.5);
    shape.set_material(m);
    shape.set_transform(Transformation::new().translation(0, fxv(-1.0), 0));
    w.add_object(shape);
    let s = fxv(2.0_f64.sqrt() / 2.0);
    let r = Ray::new(Point::new(0, 0, fxv(-3.0)), Vector::new(0, -s, s));
    let i = Intersection::new(fxv(2.0_f64.sqrt()), 2);
    let xs = vec![i];
    let comps = i.prepare_computations(&r, &xs, &w);
    let color = w.reflected_color(&comps, 4);
    assert!(color.approx_eq(RGB::new(fxv(0.19032), fxv(0.2379), fxv(0.14274))));
}

#[test]
fn shade_hit_reflective_object() {
    let mut w = World::default();
    let mut shape = Shape::plane();
    let mut m = *shape.get_material();
    m.reflective = fxv(0.5);
    shape.set_material(m);
    shape.set_transform(Transformation::new().translation(0, fxv(-1.0), 0));
    w.add_object(shape);
    let s = fxv(2.0_f64.sqrt() / 2.0);
    let r = Ray::new(Point::new(0, 0, fxv(-3.0)), Vector::new(0, -s, s));
    let i = Intersection::new(fxv(2.0_f64.sqrt()), 2);
    let xs = vec![i];
    let comps = i.prepare_computations(&r, &xs, &w);
    let color = w.shade_hit(&comps, 4);
    assert!(color.approx_eq(RGB::new(fxv(0.87677), fxv(0.92436), fxv(0.82918))));
}

#[test]
fn reflective_limit_object() {
    let mut w = World::default();
    let mut shape = Shape::plane();
    let mut m = *shape.get_material();
    m.reflective = fxv(0.5);
    shape.set_material(m);
    shape.set_transform(Transformation::new().translation(0, fxv(-1.0), 0));
    w.add_object(shape);
    let s = fxv(2.0_f64.sqrt() / 2.0);
    let r = Ray::new(Point::new(0, 0, fxv(-3.0)), Vector::new(0, -s, s));
    let i = Intersection::new(fxv(2.0_f64.sqrt()), 2);
    let xs = vec![i];
    let comps = i.prepare_computations(&r, &xs, &w);
    assert!(w.reflected_color(&comps, 0).approx_eq(RGB::black()));
}

#[test]
fn infinite_reflection_world() {
    let mut w = World::new();
    w.set_light(PointLight::new(Point::new(0, 0, 0), RGB::white()));
    let mut lower = Shape::plane();
    let mut ml = *lower.get_material();
    ml.reflective = fxv(1.0);
    lower.set_material(ml);
    lower.set_transform(Transformation::new().translation(0, fxv(-1.0), 0));
    w.add_object(lower);
    let mut upper = Shape::plane();
    let mut mu = *upper.get_material();
    mu.reflective = fxv(1.0);
    upper.set_material(mu);
    upper.set_transform(Transformation::new().translation(0, fxv(1.0), 0));
    w.add_object(upper);
    assert!(w.renderable());
    let r = Ray::new(Point::new(0, 0, 0), Vector::new(0, fxv(1.0), 0));
    w.color_at(&r, 4);
}

#[test]
fn refracted_opaque_object() {
    let w = World::default();
    let r = Ray::new(Point::new(0, 0, fxv(-5.0)), Vector::new(0, 0, fxv(1.0)));
    let xs = vec![
        Intersection::new(fxv(4.0), 0),
        Intersection::new(fxv(6.0), 0),
    ];
    let comps = xs[0].prepare_computations(&r, &xs, &w);
    assert!(w.refracted_color(&comps, 5).approx_eq(RGB::black()));
}

#[test]
fn refracted_depth_limit_object() {
    let mut w = World::default();
    let mut m = *w.get_object(0).unwrap().get_material();
    m.transparency = fxv(1.0);
    m.refractive_index = fxv(1.5);
    w.set_object_material(0, m);
    let r = Ray::new(Point::new(0, 0, fxv(-5.0)), Vector::new(0, 0, fxv(1.0)));
    let xs = vec![
        Intersection::new(fxv(4.0), 0),
        Intersection::new(fxv(6.0), 0),
    ];
    let comps = xs[0].prepare_computations(&r, &xs, &w);
    assert!(w.refracted_color(&comps, 0).approx_eq(RGB::black()));
}

#[test]
fn refracted_total_internal_object() {
    let mut w = World::default();
    let mut m = *w.get_object(0).unwrap().get_material();
    m.transparency = fxv(1.0);
    m.refractive_index = fxv(1.5);
    w.set_object_material(0, m);
    let s = fxv(2.0_f64.sqrt() / 2.0);
    let r = Ray::new(Point::new(0, 0, s), Vector::new(0, fxv(1.0), 0));
    let xs = vec![Intersection::new(-s, 0), Intersection::new(s, 0)];
    let comps = xs[1].prepare_computations(&r, &xs, &w);
    assert!(w.refracted_color(&comps, 5).approx_eq(RGB::black()));
}

#[test]
fn groups_transform_children() {
    let mut w = World::new();
    w.set_light(PointLight::new(Point::new(fxv(-10.0), fxv(10.0), fxv(-10.0)), RGB::white()));
    let mut g = Shape::group();
    g.set_transform(Transformation::new().scaling(fxv(2.0), fxv(2.0), fxv(2.0)));
    let gid = w.add_object(g);
    let mut s = Shape::sphere();
    s.set_transform(Transformation::new().translation(fxv(5.0), 0, 0));
    let sid = w.add_object(s);
    w.add_child(gid, sid);
    assert!(w.renderable());
    let r = Ray::new(Point::new(fxv(10.0), 0, fxv(-10.0)), Vector::new(0, 0, fxv(1.0)));
    let xs = w.intersect_world(&r).unwrap();
    assert_eq!(xs.len(), 2);
    assert_eq!(xs[0].object, sid);
}

#[test]
fn empty_group_misses() {
    let mut w = World::new();
    w.set_light(PointLight::new(Point::new(0, fxv(10.0), 0), RGB::white()));
    w.add_object(Shape::group());
    let r = Ray::new(Point::new(0, 0, fxv(-5.0)), Vector::new(0, 0, fxv(1.0)));
    assert!(w.intersect_world(&r).is_none());
}

#[test]
fn world_to_object_nested_group() {
    let mut w = World::new();
    w.set_light(PointLight::new(Point::new(0, fxv(10.0), 0), RGB::white()));
    let mut g1 = Shape::group();
    g1.set_transform(Transformation::new().rotate_y(ray_tracer::FX_PI / 2));
    let g1id = w.add_object(g1);
    let mut g2 = Shape::group();
    g2.set_transform(Transformation::new().scaling(fxv(2.0), fxv(2.0), fxv(2.0)));
    let g2id = w.add_object(g2);
    let mut s = Shape::sphere();
    s.set_transform(Transformation::new().translation(fxv(5.0), 0, 0));
    let sid = w.add_object(s);
    w.add_child(g1id, g2id);
    w.add_child(g2id, sid);
    assert!(w.renderable());
    let p = w.world_to_object(sid, Point::new(fxv(-2.0), 0, fxv(-10.0)));
    assert!(p.approx_eq(Point::new(0, 0, fxv(-1.0))));
}

#[test]
fn normal_through_group() {
    let mut w = World::new();
    w.set_light(PointLight::new(Point::new(0, fxv(10.0), 0), RGB::white()));
    let mut g = Shape::group();
    g.set_transform(Transformation::new().scaling(fxv(2.0), fxv(2.0), fxv(2.0)));
    let gid = w.add_object(g);
    let sid = w.add_object(Shape::sphere());
    w.add_child(gid, sid);
    assert!(w.renderable());
    let n = w.normal_at(sid, Point::new(0, 0, fxv(2.0)));
    assert!(n.approx_eq(Vector::new(0, 0, fxv(1.0))));
}

#[test]
fn group_parent_links() {
    let mut w = World::new();
    let gid = w.add_object(Shape::group());
    let sid = w.add_object(Shape::sphere());
    w.add_child(gid, sid);
    assert_eq!(w.get_object(sid).unwrap().parent_id(), Some(gid));
    assert!(w.get_object(2).is_none());
}
