use ray_tracer_challenge::shapes::shape_enum::RayInteractable;
use ray_tracer_challenge::shapes::Sphere;
use ray_tracer_challenge::{
    rotation_z, scaling, translation, Material, Matrix4, Ray, Transform, Tuple,
};

fn fx(v: f64) -> i64 {
    (v * 1_000_000.0).round() as i64
}

fn p(x: f64, y: f64, z: f64) -> Tuple {
    Tuple::point(fx(x), fx(y), fx(z))
}

fn v(x: f64, y: f64, z: f64) -> Tuple {
    Tuple::vector(fx(x), fx(y), fx(z))
}

#[test]
fn ray_intersects_sphere_at_two_points() {
    let r = Ray::new(p(0.0, 0.0, -5.0), v(0.0, 0.0, 1.0));
    let s = Sphere::new();
    let xs = s.intersect(r);
    assert_eq!(2, xs.len());
    assert_eq!(fx(4.0), xs[0].t);
    assert_eq!(fx(6.0), xs[1].t);
}

#[test]
fn ray_intersects_a_sphere_at_tangent() {
    let r = Ray::new(p(0.0, 1.0, -5.0), v(0.0, 0.0, 1.0));
    let s = Sphere::new();
    let xs = s.intersect(r);
    assert_eq!(2, xs.len());
    assert_eq!(fx(5.0), xs[0].t);
    assert_eq!(fx(5.0), xs[1].t);
}

#[test]
fn ray_misses_sphere() {
    let r = Ray::new(p(0.0, 2.0, -5.0), v(0.0, 0.0, 1.0));
    let s = Sphere::new();
    let xs = s.intersect(r);
    assert_eq!(0, xs.len());
}

#[test]
fn ray_originates_inside_a_sphere() {
    let r = Ray::new(p(0.0, 0.0, 0.0), v(0.0, 0.0, 1.0));
    let s = Sphere::new();
    let xs = s.intersect(r);
    assert_eq!(2, xs.len());
    assert_eq!(fx(-1.0), xs[0].t);
    assert_eq!(fx(1.0), xs[1].t);
}

#[test]
fn sphere_is_behind_a_ray() {
    let r = Ray::new(p(0.0, 0.0, 5.0), v(0.0, 0.0, 1.0));
    let s = Sphere::new();
    let xs = s.intersect(r);
    assert_eq!(2, xs.len());
    assert_eq!(fx(-6.0), xs[0].t);
    assert_eq!(fx(-4.0), xs[1].t);
}

#[test]
fn sphere_default_transformation() {
    let s = Sphere::new();
    assert_eq!(s.transform, Matrix4::identity_matrix());
}

#[test]
fn change_sphere_transformation() {
    let t = translation(fx(2.0), fx(3.0), fx(4.0));
    let s = Sphere::new().with_transform(t);
    assert_eq!(s.transform, t);
}

#[test]
fn intersecting_a_scaled_sphere_with_a_ray() {
    let r = Ray::new(p(0.0, 0.0, -5.0), v(0.0, 0.0, 1.0));
    let s = Sphere::new().with_transform(scaling(fx(2.0), fx(2.0), fx(2.0)));
    let xs = s.intersect(r);
    assert_eq!(2, xs.len());
    assert_eq!(fx(3.0), xs[0].t);
    assert_eq!(fx(7.0), xs[1].t);
}

#[test]
fn intersecting_a_translated_sphere_with_a_ray() {
    let r = Ray::new(p(0.0, 0.0, -5.0), v(0.0, 0.0, 1.0));
    let s = Sphere::new().with_transform(translation(fx(5.0), fx(0.0), fx(0.0)));
    let xs = s.intersect(r);
    assert_eq!(0, xs.len());
}

#[test]
fn intersecting_a_degenerate_sphere_yields_nothing() {
    let r = Ray::new(p(0.0, 0.0, -5.0), v(0.0, 0.0, 1.0));
    let s = Sphere::new().with_transform(scaling(0, 0, 0));
    let xs = s.intersect(r);
    assert_eq!(0, xs.len());
}

#[test]
fn normal_on_a_sphere_on_x_axis() {
    let s = Sphere::new();
    let n = s.normal_at(p(1.0, 0.0, 0.0));
    assert_eq!(v(1.0, 0.0, 0.0), n);
}

#[test]
fn normal_on_a_sphere_on_y_axis() {
    let s = Sphere::new();
    let n = s.normal_at(p(0.0, 1.0, 0.0));
    assert_eq!(v(0.0, 1.0, 0.0), n);
}

#[test]
fn normal_on_a_sphere_on_z_axis() {
    let s = Sphere::new();
    let n = s.normal_at(p(0.0, 0.0, 1.0));
    assert_eq!(v(0.0, 0.0, 1.0), n);
}

#[test]
fn normal_on_a_sphere_at_nonaxial_point() {
    let s = Sphere::new();
    let component = 3.0_f64.sqrt() / 3.0;
    let n = s.normal_at(p(component, component, component));
    assert_eq!(v(component, component, component), n);
}

#[test]
fn the_normal_is_a_normalized_vector() {
    let s = Sphere::new();
    let component = 3.0_f64.sqrt() / 3.0;
    let n = s.normal_at(p(component, component, component));
    assert_eq!(v(component, component, component), n);
}

#[test]
fn computing_the_normal_on_translated_sphere() {
    let s = Sphere::new().with_transform(translation(fx(0.0), fx(1.0), fx(0.0)));
    let n = s.normal_at(p(0.0, 1.70711, -0.70711));
    assert_eq!(v(0.0, 0.70711, -0.70711), n);
}

#[test]
fn computing_the_normal_on_transformed_sphere() {
    let fifth = std::f64::consts::PI / 5.0;
    let s = Sphere::new().with_transform(
        scaling(fx(1.0), fx(0.5), fx(1.0)).multiply(&rotation_z(fx(fifth.sin()), fx(fifth.cos()))),
    );
    let root_half = 2.0_f64.sqrt() / 2.0;
    let n = s.normal_at(p(0.0, root_half, -root_half));
    assert_eq!(v(0.0, 0.97014, -0.24254), n);
}

#[test]
fn computing_the_normal_on_transformed_sphere_with_builder() {
    let fifth = std::f64::consts::PI / 5.0;
    let s = Sphere::new()
        .rotate_z(fx(fifth.sin()), fx(fifth.cos()))
        .scale(fx(1.0), fx(0.5), fx(1.0))
        .transform();
    let root_half = 2.0_f64.sqrt() / 2.0;
    let n = s.normal_at(p(0.0, root_half, -root_half));
    assert_eq!(v(0.0, 0.97014, -0.24254), n);
}

#[test]
fn sphere_has_default_material() {
    let s = Sphere::new();
    assert_eq!(Material::new(), s.material);
}

#[test]
fn sphere_may_be_assigned_material() {
    let mut s = Sphere::new();
    let mut m = Material::new();
    m.ambient = fx(1.0);
    s.material = m;
    assert_eq!(m, s.material);
}
