use ray_tracer_challenge::{scaling, translation, Ray, Transform, Tuple};

fn fx(v: f64) -> i64 {
    (v * 1_000_000.0).round() as i64
}

fn p(x: f64, y: f64, z: f64) -> Tuple {
    Tuple::point(fx(x), fx(y), fx(z))
}

fn v(x: f64, y: f64, z: f64) -> Tuple {
    Tuple::vector(fx(x), fx(y), fx(z))
}

#[test]
fn create_queue_ray() {
    let origin = p(1.0, 2.0, 3.0);
    let direction = v(4.0, 5.0, 6.0);
    let r = Ray { origin, direction };
    assert_eq!(r.origin, origin);
    assert_eq!(r.direction, direction);
}

#[test]
fn point_from_distance() {
    let r = Ray::new(p(2.0, 3.0, 4.0), v(1.0, 0.0, 0.0));
    assert_eq!(r.position(fx(0.0)), p(2.0, 3.0, 4.0));
    assert_eq!(r.position(fx(1.0)), p(3.0, 3.0, 4.0));
    assert_eq!(r.position(fx(-1.0)), p(1.0, 3.0, 4.0));
    assert_eq!(r.position(fx(2.5)), p(4.5, 3.0, 4.0));
}

#[test]
fn translating_a_ray() {
    let r = Ray::new(p(1.0, 2.0, 3.0), v(0.0, 1.0, 0.0));
    let m = translation(fx(3.0), fx(4.0), fx(5.0));
    let r2 = r.transformation(&m);
    assert_eq!(r2.origin, p(4.0, 6.0, 8.0));
    assert_eq!(r2.direction, v(0.0, 1.0, 0.0));
}

#[test]
fn scaling_a_ray() {
    let r = Ray::new(p(1.0, 2.0, 3.0), v(0.0, 1.0, 0.0));
    let m = scaling(fx(2.0), fx(3.0), fx(4.0));
    let r2 = r.transformation(&m);
    assert_eq!(r2.origin, p(2.0, 6.0, 12.0));
    assert_eq!(r2.direction, v(0.0, 3.0, 0.0));
}

#[test]
fn fluent_translating_a_ray() {
    let r = Ray::new(p(1.0, 2.0, 3.0), v(0.0, 1.0, 0.0));
    let r2 = r.translate(fx(3.0), fx(4.0), fx(5.0)).transform();
    assert_eq!(r2.origin, p(4.0, 6.0, 8.0));
    assert_eq!(r2.direction, v(0.0, 1.0, 0.0));
}

#[test]
fn fluent_scaling_a_ray() {
    let r = Ray::new(p(1.0, 2.0, 3.0), v(0.0, 1.0, 0.0));
    let r2 = r.scale(fx(2.0), fx(3.0), fx(4.0)).transform();
    assert_eq!(r2.origin, p(2.0, 6.0, 12.0));
    assert_eq!(r2.direction, v(0.0, 3.0, 0.0));
}
