use ray_tracer_challenge::intersection::{Intersection, Intersections};
use ray_tracer_challenge::shapes::shape_enum::Shape;
use ray_tracer_challenge::shapes::Sphere;
use ray_tracer_challenge::{Ray, Tuple};

fn fx(v: f64) -> i64 {
    (v * 1_000_000.0).round() as i64
}

fn p(x: f64, y: f64, z: f64) -> Tuple {
    Tuple::point(fx(x), fx(y), fx(z))
}

fn v(x: f64, y: f64, z: f64) -> Tuple {
    Tuple::vector(fx(x), fx(y), fx(z))
}

#[test]
fn intersection_encapsulates_t_and_object() {
    let s = Sphere::new();
    let i = Intersection::new(fx(3.5), Shape::Sphere(s));
    let expected_s = match i.object {
        Shape::Sphere(sphere) => sphere,
    };
    assert_eq!(fx(3.5), i.t);
    assert_eq!(s, expected_s);
}

#[test]
fn aggregating_intersections() {
    let s = Sphere::new();
    let shape = Shape::Sphere(s);
    let i1 = Intersection::new(fx(1.0), shape);
    let i2 = Intersection::new(fx(2.0), shape);
    let mut xs = Intersections::new();
    xs.push(i1);
    xs.push(i2);
    assert_eq!(2, xs.len());
    assert_eq!(fx(1.0), xs.at(0).t);
    assert_eq!(fx(2.0), xs.at(1).t);
}

#[test]
fn hit_when_all_intersections_have_positive_t() {
    let s = Sphere::new();
    let shape = Shape::Sphere(s);
    let i1 = Intersection::new(fx(1.0), shape);
    let i2 = Intersection::new(fx(2.0), shape);
    let xs = Intersections::new_from_vec(vec![i1, i2]);
    assert_eq!(i1, xs.hit().unwrap());
}

#[test]
fn hit_when_some_intersections_have_negative_t() {
    let s = Sphere::new();
    let shape = Shape::Sphere(s);
    let i1 = Intersection::new(fx(-1.0), shape);
    let i2 = Intersection::new(fx(1.0), shape);
    let xs = Intersections::new_from_vec(vec![i1, i2]);
    assert_eq!(i2, xs.hit().unwrap());
}

#[test]
fn hit_when_all_intersections_have_negative_t() {
    let s = Sphere::new();
    let shape = Shape::Sphere(s);
    let i1 = Intersection::new(fx(-2.0), shape);
    let i2 = Intersection::new(fx(-1.0), shape);
    let xs = Intersections::new_from_vec(vec![i1, i2]);
    assert!(xs.hit().is_none());
}

#[test]
fn hit_is_always_lowest() {
    let s = Sphere::new();
    let shape = Shape::Sphere(s);
    let i1 = Intersection::new(fx(5.0), shape);
    let i2 = Intersection::new(fx(7.0), shape);
    let i3 = Intersection::new(fx(-3.0), shape);
    let i4 = Intersection::new(fx(2.0), shape);
    let xs = Intersections::new_from_vec(vec![i1, i2, i3, i4]);
    assert_eq!(i4, xs.hit().unwrap());
}

#[test]
fn precomputing_state_of_an_intersection() {
    let r = Ray::new(p(0.0, 0.0, -5.0), v(0.0, 0.0, 1.0));
    let shape = Sphere::new();
    let i = Intersection::new(fx(4.0), Shape::Sphere(shape));
    let comps = i.prepare_computations(r);
    assert_eq!(i.t, comps.t);
    assert_eq!(p(0.0, 0.0, -1.0), comps.point);
    assert_eq!(v(0.0, 0.0, -1.0), comps.eye_v);
    assert_eq!(v(0.0, 0.0, -1.0), comps.normal_v);
}
