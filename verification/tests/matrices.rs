//! 4x4 matrix arithmetic, determinants and inversion.

use ray_tracer::{Matrix, Point, Vector, SCALE};

/// The fixed-point scalar closest to a real value.
fn fxv(x: f64) -> i64 {
    (x * SCALE as f64).round() as i64
}

/// A matrix from rows of real values.
fn m(rows: [[f64; 4]; 4]) -> Matrix {
    Matrix::new(
        fxv(rows[0][0]),
        fxv(rows[0][1]),
        fxv(rows[0][2]),
        fxv(rows[0][3]),
        fxv(rows[1][0]),
        fxv(rows[1][1]),
        fxv(rows[1][2]),
        fxv(rows[1][3]),
        fxv(rows[2][0]),
        fxv(rows[2][1]),
        fxv(rows[2][2]),
        fxv(rows[2][3]),
        fxv(rows[3][0]),
        fxv(rows[3][1]),
        fxv(rows[3][2]),
        fxv(rows[3][3]),
    )
}

#[test]
fn init_matrix2() {
    let a = m([
        [-3.0, 5.0, 0.0, 0.0],
        [1.0, -2.0, 0.0, 0.0],
        [0.0, 0.0, 0.0, 0.0],
        [0.0, 0.0, 0.0, 0.0],
    ]);
    assert_eq!(a.get(0, 0), fxv(-3.0));
    assert_eq!(a.get(0, 1), fxv(5.0));
    assert_eq!(a.get(1, 0), fxv(1.0));
    assert_eq!(a.get(1, 1), fxv(-2.0));
}

#[test]
fn init_matrix4() {
    let a = m([
        [1.0, 2.0, 3.0, 4.0],
        [5.5, 6.5, 7.5, 8.5],
        [9.0, 10.0, 11.0, 12.0],
        [13.5, 14.6, 15.5, 16.5],
    ]);
    assert_eq!(a.get(0, 0), fxv(1.0));
    assert_eq!(a.get(0, 3), fxv(4.0));
    assert_eq!(a.get(1, 0), fxv(5.5));
    assert_eq!(a.get(1, 2), fxv(7.5));
    assert_eq!(a.get(2, 2), fxv(11.0));
    assert_eq!(a.get(3, 0), fxv(13.5));
    assert_eq!(a.get(3, 2), fxv(15.5));
}

#[test]
fn compare_eq_matrix() {
    let a = m([
        [1.0, 2.0, 3.0, 4.0],
        [5.0, 6.0, 7.0, 8.0],
        [9.0, 8.0, 7.0, 6.0],
        [5.0, 4.0, 3.0, 2.0],
    ]);
    let b = m([
        [1.0, 2.0, 3.0, 4.0],
        [5.0, 6.0, 7.0, 8.0],
        [9.0, 8.0, 7.0, 6.0],
        [5.0, 4.0, 3.0, 2.0],
    ]);
    assert!(a.approx_eq(&b));
}

#[test]
fn compare_neq_matrix() {
    let a = m([
        [1.0, 2.0, 3.0, 4.0],
        [5.0, 6.0, 7.0, 8.0],
        [9.0, 8.0, 7.0, 6.0],
        [5.0, 4.0, 3.0, 2.0],
    ]);
    let b = m([
        [2.0, 3.0, 4.0, 5.0],
        [6.0, 7.0, 8.0, 9.0],
        [8.0, 7.0, 6.0, 5.0],
        [4.0, 3.0, 2.0, 1.0],
    ]);
    assert!(!a.approx_eq(&b));
}

#[test]
fn mul_matrix() {
    let a = m([
        [1.0, 2.0, 3.0, 4.0],
        [5.0, 6.0, 7.0, 8.0],
        [9.0, 8.0, 7.0, 6.0],
        [5.0, 4.0, 3.0, 2.0],
    ]);
    let b = m([
        [-2.0, 1.0, 2.0, 3.0],
        [3.0, 2.0, 1.0, -1.0],
        [4.0, 3.0, 6.0, 5.0],
        [1.0, 2.0, 7.0, 8.0],
    ]);
    let c = m([
        [20.0, 22.0, 50.0, 48.0],
        [44.0, 54.0, 114.0, 108.0],
        [40.0, 58.0, 110.0, 102.0],
        [16.0, 26.0, 46.0, 42.0],
    ]);
    assert!(a.mul(&b).approx_eq(&c));
}

#[test]
fn mul_point_matrix() {
    let a = m([
        [1.0, 2.0, 3.0, 4.0],
        [2.0, 4.0, 4.0, 2.0],
        [8.0, 6.0, 4.0, 1.0],
        [0.0, 0.0, 0.0, 1.0],
    ]);
    let b = Point::new(fxv(1.0), fxv(2.0), fxv(3.0));
    assert!(a.mul_point(b).approx_eq(Point::new(fxv(18.0), fxv(24.0), fxv(33.0))));
}

#[test]
fn mul_vector_matrix() {
    let a = m([
        [1.0, 2.0, 3.0, 4.0],
        [2.0, 4.0, 4.0, 2.0],
        [8.0, 6.0, 4.0, 1.0],
        [0.0, 0.0, 0.0, 1.0],
    ]);
    let b = Vector::new(fxv(1.0), fxv(2.0), fxv(3.0));
    assert!(a.mul_vector(b).approx_eq(Vector::new(fxv(14.0), fxv(22.0), fxv(32.0))));
}

#[test]
fn mul_id_matrix() {
    let a = m([
        [0.0, 1.0, 2.0, 4.0],
        [1.0, 2.0, 4.0, 8.0],
        [2.0, 4.0, 8.0, 16.0],
        [4.0, 8.0, 16.0, 32.0],
    ]);
    assert!(Matrix::identity().mul(&a).approx_eq(&a));
}

#[test]
fn transpose_matrix() {
    let a = m([
        [0.0, 9.0, 3.0, 0.0],
        [9.0, 8.0, 0.0, 8.0],
        [1.0, 8.0, 5.0, 3.0],
        [0.0, 0.0, 5.0, 8.0],
    ]);
    let t = m([
        [0.0, 9.0, 1.0, 0.0],
        [9.0, 8.0, 8.0, 0.0],
        [3.0, 0.0, 5.0, 5.0],
        [0.0, 8.0, 3.0, 8.0],
    ]);
    assert!(a.transpose().approx_eq(&t));
}

#[test]
fn transpose_id_matrix() {
    assert!(Matrix::identity().transpose().approx_eq(&Matrix::identity()));
}

#[test]
fn determinant_2_matrix() {
    let a = m([
        [1.0, 5.0, 0.0, 0.0],
        [-3.0, 2.0, 0.0, 0.0],
        [0.0, 0.0, 0.0, 0.0],
        [0.0, 0.0, 0.0, 0.0],
    ]);
    assert_eq!(a.determinant(2), fxv(17.0));
}

#[test]
fn determinant_3_matrix() {
    let a = m([
        [1.0, 2.0, 6.0, 0.0],
        [-5.0, 8.0, -4.0, 0.0],
        [2.0, 6.0, 4.0, 0.0],
        [0.0, 0.0, 0.0, 0.0],
    ]);
    assert_eq!(a.cofactor(0, 0, 2), fxv(56.0));
    assert_eq!(a.cofactor(0, 1, 2), fxv(12.0));
    assert_eq!(a.cofactor(0, 2, 2), fxv(-46.0));
    assert_eq!(a.determinant(3), fxv(-196.0));
}

#[test]
fn determinant_4_matrix() {
    let a = m([
        [-2.0, -8.0, 3.0, 5.0],
        [-3.0, 1.0, 7.0, 3.0],
        [1.0, 2.0, -9.0, 6.0],
        [-6.0, 7.0, 7.0, -9.0],
    ]);
    assert_eq!(a.cofactor(0, 0, 3), fxv(690.0));
    assert_eq!(a.cofactor(0, 1, 3), fxv(447.0));
    assert_eq!(a.cofactor(0, 2, 3), fxv(210.0));
    assert_eq!(a.cofactor(0, 3, 3), fxv(51.0));
    assert_eq!(a.determinant(4), fxv(-4071.0));
}

#[test]
fn sub_3_matrix() {
    let a = m([
        [1.0, 5.0, 0.0, 0.0],
        [-3.0, 2.0, 7.0, 0.0],
        [0.0, 6.0, -3.0, 0.0],
        [0.0, 0.0, 0.0, 0.0],
    ]);
    let s = m([
        [-3.0, 2.0, 0.0, 0.0],
        [0.0, 6.0, 0.0, 0.0],
        [0.0, 0.0, 0.0, 0.0],
        [0.0, 0.0, 0.0, 0.0],
    ]);
    assert!(a.sub_matrix(0, 2).approx_eq(&s));
}

#[test]
fn sub_4_matrix() {
    let a = m([
        [-6.0, 1.0, 1.0, 6.0],
        [-8.0, 5.0, 8.0, 6.0],
        [-1.0, 0.0, 8.0, 2.0],
        [-7.0, 1.0, -1.0, 1.0],
    ]);
    let s = m([
        [-6.0, 1.0, 6.0, 0.0],
        [-8.0, 8.0, 6.0, 0.0],
        [-7.0, -1.0, 1.0, 0.0],
        [0.0, 0.0, 0.0, 0.0],
    ]);
    assert!(a.sub_matrix(2, 1).approx_eq(&s));
}

#[test]
fn minor_matrix() {
    let a = m([
        [3.0, 5.0, 0.0, 0.0],
        [2.0, -1.0, -7.0, 0.0],
        [6.0, -1.0, 5.0, 0.0],
        [0.0, 0.0, 0.0, 0.0],
    ]);
    assert_eq!(a.minor(1, 0, 2), fxv(25.0));
}

#[test]
fn cofactor_matrix() {
    let a = m([
        [3.0, 5.0, 0.0, 0.0],
        [2.0, -1.0, -7.0, 0.0],
        [6.0, -1.0, 5.0, 0.0],
        [0.0, 0.0, 0.0, 0.0],
    ]);
    assert_eq!(a.minor(0, 0, 2), fxv(-12.0));
    assert_eq!(a.cofactor(0, 0, 2), fxv(-12.0));
    assert_eq!(a.minor(1, 0, 2), fxv(25.0));
    assert_eq!(a.cofactor(1, 0, 2), fxv(-25.0));
}

#[test]
fn is_invertible_true_matrix() {
    let a = m([
        [6.0, 4.0, 4.0, 4.0],
        [5.0, 5.0, 7.0, 6.0],
        [4.0, -9.0, 3.0, -7.0],
        [9.0, 1.0, 7.0, -6.0],
    ]);
    assert_eq!(a.determinant(4), fxv(-2120.0));
    assert!(a.is_invertible(4));
}

#[test]
fn is_invertible_false_matrix() {
    let a = m([
        [-4.0, 2.0, -2.0, -3.0],
        [9.0, 6.0, 2.0, 6.0],
        [0.0, -5.0, 1.0, -5.0],
        [0.0, 0.0, 0.0, 0.0],
    ]);
    assert_eq!(a.determinant(4), 0);
    assert!(!a.is_invertible(4));
}

#[test]
fn inverse_1_matrix() {
    let a = m([
        [-5.0, 2.0, 6.0, -8.0],
        [1.0, -5.0, 1.0, 8.0],
        [7.0, 7.0, -6.0, -7.0],
        [1.0, -3.0, 7.0, 4.0],
    ]);
    let res = m([
        [0.21805, 0.45113, 0.24060, -0.04511],
        [-0.80827, -1.45677, -0.44361, 0.52068],
        [-0.07895, -0.22368, -0.05263, 0.19737],
        [-0.52256, -0.81391, -0.30075, 0.30639],
    ]);
    assert_eq!(a.determinant(4), fxv(532.0));
    assert_eq!(a.cofactor(2, 3, 3), fxv(-160.0));
    assert_eq!(a.cofactor(3, 2, 3), fxv(105.0));
    let b = a.inverse(4).unwrap();
    assert!(b.approx_eq(&res));
}

#[test]
fn inverse_2_matrix() {
    let a = m([
        [8.0, -5.0, 9.0, 2.0],
        [7.0, 5.0, 6.0, 1.0],
        [-6.0, 0.0, 9.0, 6.0],
        [-3.0, 0.0, -9.0, -4.0],
    ]);
    let res = m([
        [-0.15385, -0.15385, -0.28205, -0.53846],
        [-0.07692, 0.12308, 0.02564, 0.03077],
        [0.35897, 0.35897, 0.43590, 0.92308],
        [-0.69231, -0.69231, -0.76923, -1.92308],
    ]);
    assert!(a.inverse(4).unwrap().approx_eq(&res));
}

#[test]
fn inverse_3_matrix() {
    let a = m([
        [9.0, 3.0, 0.0, 9.0],
        [-5.0, -2.0, -6.0, -3.0],
        [-4.0, 9.0, 6.0, 4.0],
        [-7.0, 6.0, 6.0, 2.0],
    ]);
    let res = m([
        [-0.04074, -0.07778, 0.14444, -0.22222],
        [-0.07778, 0.03333, 0.36667, -0.33333],
        [-0.02901, -0.14630, -0.10926, 0.12963],
        [0.17778, 0.06667, -0.26667, 0.33333],
    ]);
    assert!(a.inverse(4).unwrap().approx_eq(&res));
}

#[test]
fn inverse_mul_self_matrix() {
    let a = m([
        [3.0, -9.0, 7.0, 3.0],
        [3.0, -8.0, 2.0, -9.0],
        [-4.0, 4.0, 4.0, 1.0],
        [-6.0, 5.0, -1.0, 1.0],
    ]);
    let b = m([
        [8.0, 2.0, 2.0, 2.0],
        [3.0, -1.0, 7.0, 0.0],
        [7.0, 0.0, 5.0, 4.0],
        [6.0, -2.0, 0.0, 5.0],
    ]);
    let c = a.mul(&b);
    assert!(c.mul(&b.inverse(4).unwrap()).approx_eq(&a));
}

#[test]
fn inverse_singular_matrix() {
    let a = m([
        [-4.0, 2.0, -2.0, -3.0],
        [9.0, 6.0, 2.0, 6.0],
        [0.0, -5.0, 1.0, -5.0],
        [0.0, 0.0, 0.0, 0.0],
    ]);
    let r = a.inverse(4);
    assert!(r.is_err());
    assert_eq!(r.unwrap_err(), "Matrix is not invertible!");
}
