use neural_network_scratch::error::NnError;
use neural_network_scratch::matrix::{Axis, Matrix};

fn cm_m(rows: usize, cols: usize, v: f64) -> Matrix {
    Matrix::constant_matrix(rows, cols, v.to_bits())
}

fn cell_m(m: &Matrix, i: usize, j: usize) -> f64 {
    f64::from_bits(m.get_column(j)[i])
}

#[test]
fn test_zeros() {
    let m_zeros = Matrix::zeros(3, 3);
    let expected = cm_m(3, 3, 0.0);
    assert_eq!(m_zeros, expected)
}

#[test]
fn test_zeros_empty_matrix() {
    let matrix = Matrix::zeros(0, 0);
    assert_eq!(matrix.shape(), (0, 0));
    let expected = cm_m(0, 0, 0.0);
    assert_eq!(matrix, expected);
}

#[test]
fn test_eye_matrix_3x3() {
    let matrix = Matrix::identity(3);
    assert_eq!(matrix.shape(), (3, 3));
    for i in 0..3 {
        for j in 0..3 {
            let expected = if i == j { 1.0 } else { 0.0 };
            assert_eq!(cell_m(&matrix, i, j), expected);
        }
    }
}

#[test]
fn test_eye_matrix_0x0() {
    let matrix = Matrix::identity(0);
    assert_eq!(matrix.shape(), (0, 0));
    let expected = Matrix::zeros(0, 0);
    assert_eq!(matrix, expected);
}

#[test]
fn test_shape() {
    let m = Matrix::zeros(3, 4);
    assert_eq!(m.shape(), (3, 4));
}

#[test]
fn test_random_normal() {
    let m = Matrix::random_normal(2, 3, (0.0f64).to_bits(), (1.0f64).to_bits()).unwrap();
    assert_eq!(m.shape(), (2, 3));
    for j in 0..3 {
        for &b in m.get_column(j).iter() {
            let x = f64::from_bits(b);
            assert!(x >= -5.0 && x <= 5.0);
        }
    }
}

#[test]
fn test_float_mul() {
    let m = cm_m(2, 2, 2.0);
    let result = m.float_mul((3.0f64).to_bits());
    let expected = cm_m(2, 2, 6.0);
    assert_eq!(result, expected);
}

#[test]
fn test_exp() {
    let m = cm_m(2, 2, 1.0);
    let result = m.exp();
    // The library's exponential is libm's; at this argument it lands one
    // ulp from the mathematical constant, so compare against the same
    // function and separately pin the value to `e` within one ulp.
    let expected = cm_m(2, 2, libm::exp(1.0));
    assert_eq!(result, expected);
    let got = f64::from_bits(result.get_column(0)[0]);
    assert!((got - std::f64::consts::E).abs() <= std::f64::consts::E * f64::EPSILON);
}

#[test]
fn test_sigmoid() {
    let m = cm_m(2, 2, 0.0);
    let result = m.sigmoid();
    let expected = cm_m(2, 2, 0.5);
    assert_eq!(result, expected);
}

#[test]
fn test_sigmoid_derivative() {
    let m = cm_m(2, 2, 0.0);
    let result = m.sigmoid_derivative();
    let expected = cm_m(2, 2, 0.25);
    assert_eq!(result, expected);
}

#[test]
fn test_matrix_mul() {
    let m1 = cm_m(2, 3, 1.0);
    let m2 = cm_m(3, 2, 2.0);
    let result = m1.matrix_mul(&m2).unwrap();
    let expected = cm_m(2, 2, 6.0);
    assert_eq!(result, expected);
}

#[test]
fn test_dot() {
    let m1 = cm_m(2, 3, 1.0);
    let m2 = cm_m(3, 2, 2.0);
    let result = m1.dot(&m2).unwrap();
    let expected = cm_m(2, 2, 6.0);
    assert_eq!(result, expected);
}

#[test]
fn test_dot_shape_mismatch() {
    let m1 = cm_m(2, 3, 1.0);
    let m2 = cm_m(2, 3, 2.0);
    assert_eq!(m1.dot(&m2), Err(NnError::ShapeMismatch));
}

#[test]
fn test_component_ops() {
    let a = cm_m(2, 2, 6.0);
    let b = cm_m(2, 2, 2.0);
    assert_eq!(a.component_add(&b).unwrap(), cm_m(2, 2, 8.0));
    assert_eq!(a.component_sub(&b).unwrap(), cm_m(2, 2, 4.0));
    assert_eq!(a.component_mul(&b).unwrap(), cm_m(2, 2, 12.0));
    assert_eq!(a.component_div(&b).unwrap(), cm_m(2, 2, 3.0));
    let c = cm_m(2, 3, 1.0);
    assert_eq!(a.component_add(&c), Err(NnError::ShapeMismatch));
}

#[test]
fn test_scalar_ops() {
    let a = cm_m(2, 2, 6.0);
    assert_eq!(a.scalar_add((1.0f64).to_bits()), cm_m(2, 2, 7.0));
    assert_eq!(a.scalar_sub((1.0f64).to_bits()), cm_m(2, 2, 5.0));
    assert_eq!(a.scalar_mul((2.0f64).to_bits()), cm_m(2, 2, 12.0));
    assert_eq!(a.scalar_div((2.0f64).to_bits()), cm_m(2, 2, 3.0));
}

#[test]
fn test_sqrt() {
    let m = cm_m(2, 2, 4.0);
    assert_eq!(m.sqrt(), cm_m(2, 2, 2.0));
}

#[test]
fn test_transpose_round_trip() {
    let cols = vec![
        vec![(1.0f64).to_bits(), (2.0f64).to_bits()],
        vec![(3.0f64).to_bits(), (4.0f64).to_bits()],
        vec![(5.0f64).to_bits(), (6.0f64).to_bits()],
    ];
    let m = Matrix::from_column_leading_vector2(&cols);
    assert_eq!(m.shape(), (2, 3));
    let t = m.transpose();
    assert_eq!(t.shape(), (3, 2));
    assert_eq!(cell_m(&t, 0, 1), 2.0);
    assert_eq!(t.transpose(), m);
}

#[test]
fn test_broadcast() {
    let row = cm_m(1, 3, 2.5);
    let b = row.broadcast((4, 3)).unwrap();
    assert_eq!(b, cm_m(4, 3, 2.5));
    let col = cm_m(4, 1, 1.5);
    let c = col.broadcast((4, 3)).unwrap();
    assert_eq!(c, cm_m(4, 3, 1.5));
    assert_eq!(row.broadcast((4, 2)), Err(NnError::ShapeMismatch));
}

#[test]
fn test_sum_axis() {
    let m = cm_m(2, 3, 1.5);
    let rows_collapsed = m.sum_axis(Axis::Rows);
    assert_eq!(rows_collapsed, cm_m(1, 3, 3.0));
    let cols_collapsed = m.sum_axis(Axis::Cols);
    assert_eq!(cols_collapsed, cm_m(2, 1, 4.5));
}

#[test]
fn test_column_conversions() {
    let v = vec![(1.0f64).to_bits(), (2.0f64).to_bits(), (3.0f64).to_bits()];
    let m = Matrix::from_column_vector(&v);
    assert_eq!(m.shape(), (3, 1));
    assert_eq!(m.get_column(0), v);
    let cols = m.get_data_col_leading();
    assert_eq!(cols.len(), 1);
    assert_eq!(cols[0], v);
}

#[test]
fn test_xavier_uniform_range() {
    // limit = sqrt(6 / 16) < 1, so every draw must lie strictly inside
    // (-1, 1); a wrong integer-to-double conversion would blow this up.
    let m = Matrix::xavier_uniform(8, 8).unwrap();
    assert_eq!(m.shape(), (8, 8));
    for j in 0..8 {
        for &b in m.get_column(j).iter() {
            let x = f64::from_bits(b);
            assert!(x.abs() < 1.0);
        }
    }
}

#[test]
fn test_display() {
    let m = cm_m(2, 2, 1.0);
    let display_str = m.to_display_string();
    assert!(display_str.contains("Matrix 2x2:"));
    assert!(display_str.contains("1.0\t1.0"));
}

#[test]
fn test_uniform_invalid_bounds() {
    let r = Matrix::random_uniform(2, 2, (1.0f64).to_bits(), (0.0f64).to_bits());
    assert_eq!(r, Err(NnError::InvalidConfiguration));
}
