use ray_tracer_challenge::{
    rotation_x, rotation_y, rotation_z, scaling, shearing, translation, Matrix4, Transform, Tuple,
};
use std::f64::consts;

fn fx(v: f64) -> i64 {
    (v * 1_000_000.0).round() as i64
}

fn p(x: f64, y: f64, z: f64) -> Tuple {
    Tuple::point(fx(x), fx(y), fx(z))
}

fn v(x: f64, y: f64, z: f64) -> Tuple {
    Tuple::vector(fx(x), fx(y), fx(z))
}

fn rot_x(radians: f64) -> Matrix4 {
    rotation_x(fx(radians.sin()), fx(radians.cos()))
}

fn rot_y(radians: f64) -> Matrix4 {
    rotation_y(fx(radians.sin()), fx(radians.cos()))
}

fn rot_z(radians: f64) -> Matrix4 {
    rotation_z(fx(radians.sin()), fx(radians.cos()))
}

#[test]
fn mul_by_translation() {
    let transform = translation(fx(5.0), fx(-3.0), fx(2.0));
    let point = p(-3.0, 4.0, 5.0);
    assert_eq!(transform.mul_tuple(&point), p(2.0, 1.0, 7.0));
}

#[test]
fn mul_by_inverse() {
    let transform = translation(fx(5.0), fx(-3.0), fx(2.0));
    let inverse = transform.inverse().unwrap();
    let point = p(-3.0, 4.0, 5.0);
    assert_eq!(inverse.mul_tuple(&point), p(-8.0, 7.0, 3.0));
}

#[test]
fn translation_with_vector() {
    let transform = translation(fx(5.0), fx(-3.0), fx(2.0));
    let vector = v(-3.0, 4.0, 5.0);
    assert_eq!(transform.mul_tuple(&vector), v(-3.0, 4.0, 5.0));
}

#[test]
fn scaling_with_point() {
    let transform = scaling(fx(2.0), fx(3.0), fx(4.0));
    let point = p(-4.0, 6.0, 8.0);
    assert_eq!(transform.mul_tuple(&point), p(-8.0, 18.0, 32.0));
}

#[test]
fn scaling_with_vector() {
    let transform = scaling(fx(2.0), fx(3.0), fx(4.0));
    let vector = v(-4.0, 6.0, 8.0);
    assert_eq!(transform.mul_tuple(&vector), v(-8.0, 18.0, 32.0));
}

#[test]
fn scaling_with_inverse() {
    let transform = scaling(fx(2.0), fx(3.0), fx(4.0));
    let inverse = transform.inverse().unwrap();
    let vector = v(-4.0, 6.0, 8.0);
    assert_eq!(inverse.mul_tuple(&vector), v(-2.0, 2.0, 2.0));
}

#[test]
fn reflection() {
    let transform = scaling(fx(-1.0), fx(1.0), fx(1.0));
    let point = p(2.0, 3.0, 4.0);
    assert_eq!(transform.mul_tuple(&point), p(-2.0, 3.0, 4.0));
}

#[test]
fn rotate_point_x() {
    let point = p(0.0, 1.0, 0.0);
    let half_quarter = rot_x(consts::PI / 4.0);
    let full_quarter = rot_x(consts::PI / 2.0);
    let root_half = 2.0_f64.sqrt() / 2.0;
    assert_eq!(half_quarter.mul_tuple(&point), p(0.0, root_half, root_half));
    assert_eq!(full_quarter.mul_tuple(&point), p(0.0, 0.0, 1.0));
}

#[test]
fn inverse_x_rotation() {
    let point = p(0.0, 1.0, 0.0);
    let half_quarter = rot_x(consts::PI / 4.0);
    let inverse = half_quarter.inverse().unwrap();
    let root_half = 2.0_f64.sqrt() / 2.0;
    assert_eq!(inverse.mul_tuple(&point), p(0.0, root_half, -root_half));
}

#[test]
fn rotate_point_y() {
    let point = p(0.0, 0.0, 1.0);
    let half_quarter = rot_y(consts::PI / 4.0);
    let full_quarter = rot_y(consts::PI / 2.0);
    let root_half = 2.0_f64.sqrt() / 2.0;
    assert_eq!(half_quarter.mul_tuple(&point), p(root_half, 0.0, root_half));
    assert_eq!(full_quarter.mul_tuple(&point), p(1.0, 0.0, 0.0));
}

#[test]
fn rotate_point_z() {
    let point = p(0.0, 1.0, 0.0);
    let half_quarter = rot_z(consts::PI / 4.0);
    let full_quarter = rot_z(consts::PI / 2.0);
    let root_half = 2.0_f64.sqrt() / 2.0;
    assert_eq!(half_quarter.mul_tuple(&point), p(-root_half, root_half, 0.0));
    assert_eq!(full_quarter.mul_tuple(&point), p(-1.0, 0.0, 0.0));
}

#[test]
fn shearing_xy() {
    let transform = shearing(fx(1.0), 0, 0, 0, 0, 0);
    assert_eq!(transform.mul_tuple(&p(2.0, 3.0, 4.0)), p(5.0, 3.0, 4.0));
}

#[test]
fn shearing_xz() {
    let transform = shearing(0, fx(1.0), 0, 0, 0, 0);
    assert_eq!(transform.mul_tuple(&p(2.0, 3.0, 4.0)), p(6.0, 3.0, 4.0));
}

#[test]
fn shearing_yx() {
    let transform = shearing(0, 0, fx(1.0), 0, 0, 0);
    assert_eq!(transform.mul_tuple(&p(2.0, 3.0, 4.0)), p(2.0, 5.0, 4.0));
}

#[test]
fn shearing_yz() {
    let transform = shearing(0, 0, 0, fx(1.0), 0, 0);
    assert_eq!(transform.mul_tuple(&p(2.0, 3.0, 4.0)), p(2.0, 7.0, 4.0));
}

#[test]
fn shearing_zx() {
    let transform = shearing(0, 0, 0, 0, fx(1.0), 0);
    assert_eq!(transform.mul_tuple(&p(2.0, 3.0, 4.0)), p(2.0, 3.0, 6.0));
}

#[test]
fn shearing_zy() {
    let transform = shearing(0, 0, 0, 0, 0, fx(1.0));
    assert_eq!(transform.mul_tuple(&p(2.0, 3.0, 4.0)), p(2.0, 3.0, 7.0));
}

#[test]
fn chaining_transformations() {
    let point = p(1.0, 0.0, 1.0);
    let rotate = rot_x(consts::PI / 2.0);
    let scale = scaling(fx(5.0), fx(5.0), fx(5.0));
    let translate = translation(fx(10.0), fx(5.0), fx(7.0));
    let p2 = rotate.mul_tuple(&point);
    let p3 = scale.mul_tuple(&p2);
    let p4 = translate.mul_tuple(&p3);
    assert_eq!(p4, p(15.0, 0.0, 7.0));
}

#[test]
fn chained_reverse() {
    let point = p(1.0, 0.0, 1.0);
    let rotate = rot_x(consts::PI / 2.0);
    let scale = scaling(fx(5.0), fx(5.0), fx(5.0));
    let translate = translation(fx(10.0), fx(5.0), fx(7.0));
    let t = translate.multiply(&scale).multiply(&rotate);
    assert_eq!(t.mul_tuple(&point), p(15.0, 0.0, 7.0));
}

#[test]
fn transform_builder() {
    let point = p(1.0, 0.0, 1.0);
    let half = consts::PI / 2.0;
    let actual = point
        .rotate_x(fx(half.sin()), fx(half.cos()))
        .scale(fx(5.0), fx(5.0), fx(5.0))
        .translate(fx(10.0), fx(5.0), fx(7.0))
        .transform();
    assert_eq!(actual, p(15.0, 0.0, 7.0));
}
