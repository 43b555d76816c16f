use ray_tracer_challenge::{approx_eq_low_precision, Matrix2, Matrix3, Matrix4};

fn m4_approx_low(a: &Matrix4, b: &Matrix4) -> bool {
    approx_eq_low_precision(a.m00, b.m00) && approx_eq_low_precision(a.m01, b.m01)
        && approx_eq_low_precision(a.m02, b.m02) && approx_eq_low_precision(a.m03, b.m03)
        && approx_eq_low_precision(a.m10, b.m10) && approx_eq_low_precision(a.m11, b.m11)
        && approx_eq_low_precision(a.m12, b.m12) && approx_eq_low_precision(a.m13, b.m13)
        && approx_eq_low_precision(a.m20, b.m20) && approx_eq_low_precision(a.m21, b.m21)
        && approx_eq_low_precision(a.m22, b.m22) && approx_eq_low_precision(a.m23, b.m23)
        && approx_eq_low_precision(a.m30, b.m30) && approx_eq_low_precision(a.m31, b.m31)
        && approx_eq_low_precision(a.m32, b.m32) && approx_eq_low_precision(a.m33, b.m33)
}

fn fx(v: f64) -> i64 {
    (v * 1_000_000.0).round() as i64
}

fn m4(rows: [[f64; 4]; 4]) -> Matrix4 {
    Matrix4 {
        m00: fx(rows[0][0]),
        m01: fx(rows[0][1]),
        m02: fx(rows[0][2]),
        m03: fx(rows[0][3]),
        m10: fx(rows[1][0]),
        m11: fx(rows[1][1]),
        m12: fx(rows[1][2]),
        m13: fx(rows[1][3]),
        m20: fx(rows[2][0]),
        m21: fx(rows[2][1]),
        m22: fx(rows[2][2]),
        m23: fx(rows[2][3]),
        m30: fx(rows[3][0]),
        m31: fx(rows[3][1]),
        m32: fx(rows[3][2]),
        m33: fx(rows[3][3]),
    }
}

fn m3(rows: [[f64; 3]; 3]) -> Matrix3 {
    Matrix3 {
        m00: fx(rows[0][0]),
        m01: fx(rows[0][1]),
        m02: fx(rows[0][2]),
        m10: fx(rows[1][0]),
        m11: fx(rows[1][1]),
        m12: fx(rows[1][2]),
        m20: fx(rows[2][0]),
        m21: fx(rows[2][1]),
        m22: fx(rows[2][2]),
    }
}

fn m2(rows: [[f64; 2]; 2]) -> Matrix2 {
    Matrix2 {
        m00: fx(rows[0][0]),
        m01: fx(rows[0][1]),
        m10: fx(rows[1][0]),
        m11: fx(rows[1][1]),
    }
}

#[test]
fn create_4x4() {
    let mut matrix = Matrix4::new();
    matrix.m00 = fx(1.5);
    assert_eq!(matrix.m00, fx(1.5));
}

#[test]
fn matrix_eq() {
    let one = m4([[1.0, 2.0, 3.0, 4.0], [5.0, 6.0, 7.0, 8.0], [9.0, 8.0, 7.0, 6.0], [5.0, 4.0, 3.0, 2.0]]);
    let two = m4([[1.0, 2.0, 3.0, 4.0], [5.0, 6.0, 7.0, 8.0], [9.0, 8.0, 7.0, 6.0], [5.0, 4.0, 3.0, 2.0]]);
    assert_eq!(one, two);
}

#[test]
fn matrix_ne() {
    let one = m4([[1.0, 2.0, 3.0, 4.0], [5.0, 6.0, 7.0, 8.0], [9.0, 8.0, 7.0, 6.0], [5.0, 4.0, 3.0, 2.0]]);
    let two = m4([[2.0, 2.0, 3.0, 4.0], [5.0, 6.0, 7.0, 8.0], [9.0, 8.0, 7.0, 6.0], [5.0, 4.0, 3.0, 2.0]]);
    assert_ne!(one, two);
}

#[test]
fn matrix_mul() {
    let one = m4([[1.0, 2.0, 3.0, 4.0], [5.0, 6.0, 7.0, 8.0], [9.0, 8.0, 7.0, 6.0], [5.0, 4.0, 3.0, 2.0]]);
    let two = m4([[-2.0, 1.0, 2.0, 3.0], [3.0, 2.0, 1.0, -1.0], [4.0, 3.0, 6.0, 5.0], [1.0, 2.0, 7.0, 8.0]]);
    let expected = m4([
        [20.0, 22.0, 50.0, 48.0],
        [44.0, 54.0, 114.0, 108.0],
        [40.0, 58.0, 110.0, 102.0],
        [16.0, 26.0, 46.0, 42.0],
    ]);
    assert_eq!(one.multiply(&two), expected);
}

#[test]
fn identity_matrix_mul() {
    let matrix = m4([[0.0, 1.0, 2.0, 4.0], [1.0, 2.0, 4.0, 8.0], [2.0, 4.0, 8.0, 16.0], [4.0, 8.0, 16.0, 32.0]]);
    let identity_matrix = Matrix4::identity_matrix();
    assert_eq!(matrix.multiply(&identity_matrix), matrix);
}

#[test]
fn transpose_matrix() {
    let matrix = m4([[0.0, 9.0, 3.0, 0.0], [9.0, 8.0, 0.0, 8.0], [1.0, 8.0, 5.0, 3.0], [0.0, 0.0, 5.0, 8.0]]);
    let expected = m4([[0.0, 9.0, 1.0, 0.0], [9.0, 8.0, 8.0, 0.0], [3.0, 0.0, 5.0, 5.0], [0.0, 8.0, 3.0, 8.0]]);
    assert_eq!(matrix.transpose(), expected);
}

#[test]
fn transpose_twice_returns_matrix() {
    let matrix = m4([[0.0, 9.0, 3.0, 0.0], [9.0, 8.0, 0.0, 8.0], [1.0, 8.0, 5.0, 3.0], [0.0, 0.0, 5.0, 8.0]]);
    assert_eq!(matrix.transpose().transpose(), matrix);
}

#[test]
fn transpose_identity_matrix() {
    let mut identity_matrix = Matrix4::identity_matrix();
    let expected = Matrix4::identity_matrix();
    identity_matrix.transpose_mut();
    assert_eq!(identity_matrix, expected);
}

#[test]
fn determinant_matrix2() {
    let matrix = m2([[1.0, 5.0], [-3.0, 2.0]]);
    assert_eq!(matrix.determinant(), fx(17.0));
}

#[test]
fn submatrix() {
    let matrix = m3([[1.0, 5.0, 0.0], [-3.0, 2.0, 7.0], [0.0, 6.0, -3.0]]);
    let expected = m2([[-3.0, 2.0], [0.0, 6.0]]);
    assert_eq!(matrix.submatrix(0, 2), expected);
}

#[test]
fn minor_of_matrix3() {
    let matrix = m3([[3.0, 5.0, 0.0], [2.0, -1.0, -7.0], [6.0, -1.0, 5.0]]);
    assert_eq!(matrix.minor(1, 0), fx(25.0));
}

#[test]
fn cofactor_no_negation() {
    let matrix = m3([[3.0, 5.0, 0.0], [2.0, -1.0, -7.0], [6.0, -1.0, 5.0]]);
    assert_eq!(matrix.cofactor(0, 0), fx(-12.0));
}

#[test]
fn cofactor_negation() {
    let matrix = m3([[3.0, 5.0, 0.0], [2.0, -1.0, -7.0], [6.0, -1.0, 5.0]]);
    assert_eq!(matrix.cofactor(1, 0), fx(-25.0));
}

#[test]
fn determinant_minor3() {
    let matrix = m3([[1.0, 2.0, 6.0], [-5.0, 8.0, -4.0], [2.0, 6.0, 4.0]]);
    assert_eq!(matrix.determinant(), fx(-196.0));
}

#[test]
fn determinant_minor4() {
    let matrix = m4([[-2.0, -8.0, 3.0, 5.0], [-3.0, 1.0, 7.0, 3.0], [1.0, 2.0, -9.0, 6.0], [-6.0, 7.0, 7.0, -9.0]]);
    assert_eq!(matrix.determinant(), fx(-4071.0));
}

#[test]
fn convertible_matrix4() {
    let matrix = m4([[6.0, 4.0, 4.0, 4.0], [5.0, 5.0, 7.0, 6.0], [4.0, -9.0, 3.0, -7.0], [9.0, 1.0, 7.0, -6.0]]);
    assert_ne!(matrix.determinant(), 0);
}

#[test]
fn non_convertible_matrix4() {
    let matrix = m4([[-4.0, 2.0, -2.0, -3.0], [9.0, 6.0, 2.0, 6.0], [0.0, -5.0, 1.0, -5.0], [0.0, 0.0, 0.0, 0.0]]);
    assert_eq!(matrix.determinant(), 0);
}

#[test]
fn inverse_of_singular_matrix_is_none() {
    let matrix = m4([[-4.0, 2.0, -2.0, -3.0], [9.0, 6.0, 2.0, 6.0], [0.0, -5.0, 1.0, -5.0], [0.0, 0.0, 0.0, 0.0]]);
    assert!(matrix.inverse().is_none());
}

#[test]
fn inversion_matrix4_test1() {
    let matrix = m4([[8.0, -5.0, 9.0, 2.0], [7.0, 5.0, 6.0, 1.0], [-6.0, 0.0, 9.0, 6.0], [-3.0, 0.0, -9.0, -4.0]]);
    let expected_inverse = m4([
        [-0.15385, -0.15385, -0.28205, -0.53846],
        [-0.07692, 0.12308, 0.02564, 0.03077],
        [0.35897, 0.35897, 0.43590, 0.92308],
        [-0.69231, -0.69231, -0.76923, -1.92308],
    ]);
    let actual_inverse = match matrix.inverse() {
        Some(val) => val,
        None => panic!("matrix is not invertible"),
    };
    assert_eq!(actual_inverse, expected_inverse);
}

#[test]
fn inversion_matrix4_test2() {
    let matrix = m4([[-5.0, 2.0, 6.0, -8.0], [1.0, -5.0, 1.0, 8.0], [7.0, 7.0, -6.0, -7.0], [1.0, -3.0, 7.0, 4.0]]);
    let expected_inverse = m4([
        [0.21805, 0.45113, 0.24060, -0.04511],
        [-0.80827, -1.45677, -0.44361, 0.52068],
        [-0.07895, -0.22368, -0.05263, 0.19737],
        [-0.52256, -0.81391, -0.30075, 0.30639],
    ]);
    let actual_inverse = match matrix.inverse() {
        Some(val) => val,
        None => panic!("matrix is not invertible"),
    };
    assert_eq!(actual_inverse, expected_inverse);
}

#[test]
fn inversion_matrix4_test3() {
    let matrix = m4([[9.0, 3.0, 0.0, 9.0], [-5.0, -2.0, -6.0, -3.0], [-4.0, 9.0, 6.0, 4.0], [-7.0, 6.0, 6.0, 2.0]]);
    let expected_inverse = m4([
        [-0.04074, -0.07778, 0.14444, -0.22222],
        [-0.07778, 0.03333, 0.36667, -0.33333],
        [-0.02901, -0.14630, -0.10926, 0.12963],
        [0.17778, 0.06667, -0.26667, 0.33333],
    ]);
    let actual_inverse = match matrix.inverse() {
        Some(val) => val,
        None => panic!("matrix is not invertible"),
    };
    assert_eq!(actual_inverse, expected_inverse);
}

#[test]
fn multiply_product_inverse() {
    let matrix_a = m4([[3.0, -9.0, 7.0, 3.0], [3.0, -8.0, 2.0, -9.0], [-4.0, 4.0, 4.0, 1.0], [-6.0, 5.0, -1.0, 1.0]]);
    let matrix_b = m4([[8.0, 2.0, 2.0, 2.0], [3.0, -1.0, 7.0, 0.0], [7.0, 0.0, 5.0, 4.0], [6.0, -2.0, 0.0, 5.0]]);
    let matrix_c = matrix_a.multiply(&matrix_b);
    let reverse = matrix_c.multiply(&matrix_b.inverse().unwrap());
    assert!(m4_approx_low(&matrix_a, &reverse));
}

#[test]
fn inverse_round_trip_on_tuple() {
    let matrix = m4([[8.0, -5.0, 9.0, 2.0], [7.0, 5.0, 6.0, 1.0], [-6.0, 0.0, 9.0, 6.0], [-3.0, 0.0, -9.0, -4.0]]);
    let inverse = matrix.inverse().unwrap();
    let t = ray_tracer_challenge::Tuple::point(fx(1.0), fx(2.0), fx(3.0));
    let forth = matrix.mul_tuple(&t);
    let back = inverse.mul_tuple(&forth);
    assert!((back.x - t.x).abs() <= 100);
    assert!((back.y - t.y).abs() <= 100);
    assert!((back.z - t.z).abs() <= 100);
}

#[test]
fn inverse_of_ill_scaled_invertible_matrix_is_some() {
    // Determinant 2e-5: beyond the 1e-5 tolerance, so the inverse is
    // owed even though its entries reach the millions.
    let matrix = m4([
        [0.000001, 0.02, 0.0, 0.0],
        [0.014, 300.0, 0.0, 0.0],
        [0.0, 0.0, 1.0, 0.0],
        [0.0, 0.0, 0.0, 1.0],
    ]);
    let inverse = matrix.inverse().expect("an invertible matrix must have an inverse");
    // inverse[0][0] = 300 / 2e-5 = 15,000,000
    assert!((inverse.m00 - fx(15_000_000.0)).abs() <= fx(15_000_000.0) / 100_000);
    let t = ray_tracer_challenge::Tuple::point(fx(3.0), fx(-2.0), fx(1.0));
    let forth = matrix.mul_tuple(&t);
    let back = inverse.mul_tuple(&forth);
    // The round trip through a matrix this ill-conditioned magnifies the
    // grid rounding; a loose absolute tolerance still pins the values.
    assert!((back.x - t.x).abs() <= fx(0.25));
    assert!((back.y - t.y).abs() <= fx(0.25));
    assert!((back.z - t.z).abs() <= fx(0.25));
}
