use ray_tracer_challenge::Tuple;

fn fx(v: f64) -> i64 {
    (v * 1_000_000.0).round() as i64
}

#[test]
fn test_create_point() {
    let point = Tuple::point(fx(1.0), fx(2.0), fx(3.0));
    assert_eq!(point.x, fx(1.0));
    assert_eq!(point.y(), fx(2.0));
    assert_eq!(point.z(), fx(3.0));
    assert_eq!(point.w(), fx(1.0));
}

#[test]
fn test_create_vector() {
    let vector = Tuple::vector(fx(1.0), fx(2.0), fx(3.0));
    assert_eq!(vector.x(), fx(1.0));
    assert_eq!(vector.y(), fx(2.0));
    assert_eq!(vector.z(), fx(3.0));
    assert_eq!(vector.w(), fx(0.0));
}

#[test]
fn test_add_vector_point() {
    let point = Tuple::point(fx(5.5), fx(2.5), fx(0.0));
    let vector = Tuple::vector(fx(1.0), fx(2.0), fx(3.0));
    let expected = Tuple::new(fx(6.5), fx(4.5), fx(3.0), fx(1.0));
    let actual = point.add(vector);
    assert_eq!(actual, expected);
    assert_eq!(actual.w, fx(1.0));
}

#[test]
fn subtract_point_from_point() {
    let point = Tuple::point(fx(3.0), fx(2.0), fx(1.0));
    let vector = Tuple::point(fx(5.0), fx(6.0), fx(7.0));
    let expected = Tuple::new(fx(-2.0), fx(-4.0), fx(-6.0), fx(0.0));
    let actual = point.sub(vector);
    assert_eq!(actual, expected);
    assert_eq!(actual.w, 0);
}

#[test]
fn subtract_vector_from_point() {
    let point = Tuple::point(fx(3.0), fx(2.0), fx(1.0));
    let vector = Tuple::vector(fx(5.0), fx(6.0), fx(7.0));
    let expected = Tuple::new(fx(-2.0), fx(-4.0), fx(-6.0), fx(1.0));
    let actual = point.sub(vector);
    assert_eq!(actual, expected);
    assert_eq!(actual.w, fx(1.0));
}

#[test]
fn subtract_vector_from_zero_vector() {
    let zero = Tuple::vector(0, 0, 0);
    let vector = Tuple::vector(fx(1.0), fx(-2.0), fx(3.0));
    let expected = Tuple::new(fx(-1.0), fx(2.0), fx(-3.0), 0);
    let actual = zero.sub(vector);
    assert_eq!(actual, expected);
}

#[test]
fn negate_tuple() {
    let point = Tuple::new(fx(1.0), fx(-2.0), fx(3.0), fx(-4.0));
    let expected = Tuple::new(fx(-1.0), fx(2.0), fx(-3.0), fx(4.0));
    let actual = point.neg();
    assert_eq!(actual, expected);
    assert_eq!(actual.w, fx(4.0));
}

#[test]
fn multiply_with_scalar() {
    let vector = Tuple::new(fx(1.0), fx(-2.0), fx(3.0), fx(-4.0));
    let expected = Tuple::new(fx(3.5), fx(-7.0), fx(10.5), fx(-4.0));
    let actual = vector.mul_scalar(fx(3.5));
    assert_eq!(actual, expected);
}

#[test]
fn multiply_with_fraction() {
    let vector = Tuple::new(fx(1.0), fx(-2.0), fx(3.0), fx(-4.0));
    let expected = Tuple::new(fx(0.5), fx(-1.0), fx(1.5), fx(-4.0));
    let actual = vector.mul_scalar(fx(0.5));
    assert_eq!(actual, expected);
}

#[test]
fn divide_with_scalar() {
    let vector = Tuple::new(fx(1.0), fx(-2.0), fx(3.0), fx(-4.0));
    let expected = Tuple::new(fx(0.5), fx(-1.0), fx(1.5), fx(-4.0));
    let actual = vector.div_scalar(fx(2.0));
    assert_eq!(actual, expected);
}

#[test]
fn compute_magnitude_y() {
    let vector = Tuple::vector(0, fx(1.0), 0);
    assert_eq!(vector.magnitude(), fx(1.0));
}

#[test]
fn compute_magnitude_x() {
    let vector = Tuple::vector(fx(1.0), 0, 0);
    assert_eq!(vector.magnitude(), fx(1.0));
}

#[test]
fn compute_magnitude_z() {
    let vector = Tuple::vector(0, 0, fx(1.0));
    assert_eq!(vector.magnitude(), fx(1.0));
}

#[test]
fn compute_magnitude_positive() {
    let vector = Tuple::vector(fx(1.0), fx(2.0), fx(3.0));
    let expected = fx(14.0_f64.sqrt());
    assert!((vector.magnitude() - expected).abs() <= 10);
}

#[test]
fn compute_magnitude_negative() {
    let vector = Tuple::vector(fx(-1.0), fx(-2.0), fx(-3.0));
    let expected = fx(14.0_f64.sqrt());
    assert!((vector.magnitude() - expected).abs() <= 10);
}

#[test]
fn normalize_simple_vector() {
    let vector = Tuple::vector(fx(4.0), 0, 0);
    let expected = Tuple::vector(fx(1.0), 0, 0);
    assert_eq!(vector.normalize(), expected);
}

#[test]
fn normalize() {
    let vector = Tuple::vector(fx(1.0), fx(2.0), fx(3.0));
    let root = 14.0_f64.sqrt();
    let expected = Tuple::vector(fx(1.0 / root), fx(2.0 / root), fx(3.0 / root));
    assert_eq!(vector.normalize(), expected);
}

#[test]
fn normalize_zero_vector_is_zero() {
    let vector = Tuple::vector(0, 0, 0);
    let actual = vector.normalize();
    assert_eq!(actual.x, 0);
    assert_eq!(actual.y, 0);
    assert_eq!(actual.z, 0);
}

#[test]
fn dot() {
    let v1 = Tuple::vector(fx(1.0), fx(2.0), fx(3.0));
    let v2 = Tuple::vector(fx(2.0), fx(3.0), fx(4.0));
    assert_eq!(v1.dot(v2), fx(20.0));
}

#[test]
fn cross() {
    let v1 = Tuple::vector(fx(1.0), fx(2.0), fx(3.0));
    let v2 = Tuple::vector(fx(2.0), fx(3.0), fx(4.0));
    let expected = Tuple::vector(fx(-1.0), fx(2.0), fx(-1.0));
    assert_eq!(v1.cross(v2), expected);
    let expected = Tuple::vector(fx(1.0), fx(-2.0), fx(1.0));
    assert_eq!(v2.cross(v1), expected);
}

#[test]
fn reflect_at_forty_five_degrees() {
    let v = Tuple::vector(fx(1.0), fx(-1.0), 0);
    let n = Tuple::vector(0, fx(1.0), 0);
    let expected = Tuple::vector(fx(1.0), fx(1.0), 0);
    assert_eq!(v.reflect(n), expected);
}

#[test]
fn point_and_vector_with_same_coordinates_differ() {
    let point = Tuple::point(0, 0, 0);
    let vector = Tuple::vector(0, 0, 0);
    assert_ne!(point, vector);
}
