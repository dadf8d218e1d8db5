use ray_tracer::base_types::Vector;
use ray_tracer::matrices::Matrix;
use ray_tracer::scalar::Scalar;

fn s(v: f64) -> Scalar {
    Scalar::from_bits((v * 4294967296.0).round() as i128)
}

fn rows4(vals: [[f64; 4]; 4]) -> [[Scalar; 4]; 4] {
    [
        [s(vals[0][0]), s(vals[0][1]), s(vals[0][2]), s(vals[0][3])],
        [s(vals[1][0]), s(vals[1][1]), s(vals[1][2]), s(vals[1][3])],
        [s(vals[2][0]), s(vals[2][1]), s(vals[2][2]), s(vals[2][3])],
        [s(vals[3][0]), s(vals[3][1]), s(vals[3][2]), s(vals[3][3])],
    ]
}

#[test]
fn equal() {
    let matrix1 = Matrix::new();
    let matrix2 = Matrix::new();

    // zero matrices are equal
    assert_eq!(matrix1, matrix2);

    let rows = rows4([
        [1.0, 2.0, 3.0, 4.0],
        [4.0, 3.0, 2.0, 1.0],
        [7.0, 8.0, 9.0, 0.01],
        [-12.0, 0.25, 1.5, 5.0],
    ]);

    // matrices with identical rows are equal
    let matrix3 = Matrix::new_with_rows(rows);
    let matrix4 = Matrix::new_with_rows(rows);

    assert_eq!(matrix3, matrix4);

    // matrices with not identical rows are not equal
    assert!(matrix3 != matrix1);
}

#[test]
fn mul() {
    let matrix1 = Matrix::new_with_rows(rows4([
        [1.0, 2.0, 3.0, 4.0],
        [5.0, 6.0, 7.0, 8.0],
        [9.0, 8.0, 7.0, 6.0],
        [5.0, 4.0, 3.0, 2.0],
    ]));
    let matrix2 = Matrix::new_with_rows(rows4([
        [-2.0, 1.0, 2.0, 3.0],
        [3.0, 2.0, 1.0, -1.0],
        [4.0, 3.0, 6.0, 5.0],
        [1.0, 2.0, 7.0, 8.0],
    ]));

    let product = Matrix::new_with_rows(rows4([
        [20.0, 22.0, 50.0, 48.0],
        [44.0, 54.0, 114.0, 108.0],
        [40.0, 58.0, 110.0, 102.0],
        [16.0, 26.0, 46.0, 42.0],
    ]));

    assert_eq!(product, matrix1.mul(&matrix2));
}

#[test]
fn mul_vec() {
    let matrix = Matrix::new_with_rows(rows4([
        [1.0, 2.0, 3.0, 4.0],
        [5.0, 6.0, 7.0, 8.0],
        [9.0, 8.0, 7.0, 6.0],
        [5.0, 4.0, 3.0, 2.0],
    ]));

    let vec = Vector::new_vector(s(2.0), s(-1.0), s(4.0));

    assert_eq!(
        matrix.coords_mul(vec),
        Vector::new_vector(s(12.0), s(32.0), s(38.0))
    );
}

#[test]
fn transpose() {
    let matrix = Matrix::new_with_rows(rows4([
        [0.0, 9.0, 3.0, 0.0],
        [9.0, 8.0, 0.0, 8.0],
        [1.0, 8.0, 5.0, 3.0],
        [0.0, 0.0, 5.0, 8.0],
    ]));
    let trans_matrix = Matrix::new_with_rows(rows4([
        [0.0, 9.0, 1.0, 0.0],
        [9.0, 8.0, 8.0, 0.0],
        [3.0, 0.0, 5.0, 5.0],
        [0.0, 8.0, 3.0, 8.0],
    ]));

    assert_eq!(matrix.transpose(), trans_matrix);
}

#[test]
fn m_4d_determinant() {
    let matrix = Matrix::new_with_rows(rows4([
        [-2.0, -8.0, 3.0, 5.0],
        [-3.0, 1.0, 7.0, 3.0],
        [1.0, 2.0, -9.0, 6.0],
        [-6.0, 7.0, 7.0, -9.0],
    ]));
    assert_eq!(matrix.cofactor(0, 0), s(690.0));
    assert_eq!(matrix.cofactor(0, 1), s(447.0));
    assert_eq!(matrix.cofactor(0, 2), s(210.0));
    assert_eq!(matrix.cofactor(0, 3), s(51.0));
    assert_eq!(matrix.determinant(), s(-4071.0));
}

#[test]
fn inverse() {
    let matrix1 = Matrix::new_with_rows(rows4([
        [1.0, 2.0, 3.0, 4.0],
        [5.0, 6.0, 7.0, 8.0],
        [9.0, 8.0, 7.0, 6.0],
        [5.0, 4.0, 3.0, 2.0],
    ]));
    let matrix2 = Matrix::new_with_rows(rows4([
        [-2.0, 1.0, 2.0, 3.0],
        [3.0, 2.0, 1.0, -1.0],
        [4.0, 3.0, 6.0, 5.0],
        [1.0, 2.0, 7.0, 8.0],
    ]));

    let product_matrix = matrix1.mul(&matrix2);
    let matrix2_inv = matrix2.inverse();

    assert!(matrix2_inv.is_some());
    assert!(matrix1.equal(&product_matrix.mul(&matrix2_inv.unwrap())));
}
