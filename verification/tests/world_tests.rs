use ray_tracer_challenge::{Color, Light, Ray, Tuple, World};

fn fx(v: f64) -> i64 {
    (v * 1_000_000.0).round() as i64
}

fn p(x: f64, y: f64, z: f64) -> Tuple {
    Tuple::point(fx(x), fx(y), fx(z))
}

fn v(x: f64, y: f64, z: f64) -> Tuple {
    Tuple::vector(fx(x), fx(y), fx(z))
}

#[test]
fn creating_a_world() {
    let w = World::default();
    assert_eq!(0, w.objects.len());
    assert_eq!(0, w.lights.len());
}

#[test]
fn creating_default_world() {
    let light = Light::new(p(-10.0, 10.0, -10.0), Color::white());
    let w = World::create_default_world();
    assert_eq!(1, w.lights.len());
    assert_eq!(w.lights[0].position, light.position);
    assert_eq!(w.lights[0].intensity, light.intensity);
    assert_eq!(2, w.objects.len());
}

#[test]
fn intersect_world_with_ray() {
    let w = World::create_default_world();
    let r = Ray::new(p(0.0, 0.0, -5.0), v(0.0, 0.0, 1.0));
    let xs = w.intersect(r);
    assert_eq!(4, xs.len());
    assert_eq!(fx(4.0), xs.at(0).t);
    assert_eq!(fx(4.5), xs.at(1).t);
    assert_eq!(fx(5.5), xs.at(2).t);
    assert_eq!(fx(6.0), xs.at(3).t);
}
