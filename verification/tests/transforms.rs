use ray_tracer::base_types::{Point, Vector};
use ray_tracer::matrices::Matrix;
use ray_tracer::scalar::Scalar;
use std::f64::consts::PI;

fn s(v: f64) -> Scalar {
    Scalar::from_bits((v * 4294967296.0).round() as i128)
}

fn rotation_x(theta: f64) -> Matrix {
    Matrix::rotation_x(s(theta.cos()), s(theta.sin()))
}

fn rotation_y(theta: f64) -> Matrix {
    Matrix::rotation_y(s(theta.cos()), s(theta.sin()))
}

fn rotation_z(theta: f64) -> Matrix {
    Matrix::rotation_z(s(theta.cos()), s(theta.sin()))
}

#[test]
fn transforms_translate() {
    let matrix = Matrix::translation(s(5.0), s(-3.0), s(2.0));
    let point = Point::new_point(s(-3.0), s(4.0), s(5.0));

    assert_eq!(
        matrix.coords_mul(point),
        Point::new_point(s(2.0), s(1.0), s(7.0))
    );
}

#[test]
fn transforms_translate_inverse() {
    let matrix = Matrix::translation(s(5.0), s(-3.0), s(2.0)).inverse();
    let point = Point::new_point(s(-3.0), s(4.0), s(5.0));

    assert_eq!(
        matrix.unwrap().coords_mul(point),
        Point::new_point(s(-8.0), s(7.0), s(3.0))
    );
}

// translation does not affect vector components
#[test]
fn transforms_translate_vector() {
    let matrix = Matrix::translation(s(5.0), s(-3.0), s(2.0));
    let vector = Vector::new_vector(s(-3.0), s(4.0), s(5.0));

    assert_eq!(matrix.coords_mul(vector), vector);
}

#[test]
fn transforms_scaling() {
    let matrix = Matrix::scaling(s(2.0), s(3.0), s(4.0));
    let point = Point::new_point(s(-4.0), s(6.0), s(8.0));

    assert_eq!(
        matrix.coords_mul(point),
        Point::new_point(s(-8.0), s(18.0), s(32.0))
    );
}

#[test]
fn transforms_scaling_inverse() {
    let matrix = Matrix::scaling(s(2.0), s(3.0), s(4.0)).inverse();
    let point = Point::new_point(s(-4.0), s(6.0), s(8.0));

    assert!(matrix
        .unwrap()
        .coords_mul(point)
        .equal(Point::new_point(s(-2.0), s(2.0), s(2.0))));
}

#[test]
fn transforms_scale_vector() {
    let matrix = Matrix::scaling(s(2.0), s(3.0), s(4.0));
    let vec = Vector::new_vector(s(-4.0), s(6.0), s(8.0));

    assert_eq!(
        matrix.coords_mul(vec),
        Vector::new_vector(s(-8.0), s(18.0), s(32.0))
    );
}

#[test]
fn transforms_reflection() {
    let matrix = Matrix::scaling(s(-1.0), s(1.0), s(1.0));
    let point = Point::new_point(s(2.0), s(3.0), s(4.0));

    assert_eq!(
        matrix.coords_mul(point),
        Point::new_point(s(-2.0), s(3.0), s(4.0))
    );
}

#[test]
fn transforms_rotation_x() {
    let half_quarter = rotation_x(PI / 4.0);
    let full_quarter = rotation_x(PI / 2.0);
    let point = Point::new_point(s(0.0), s(1.0), s(0.0));

    assert!(half_quarter.coords_mul(point).equal(Point::new_point(
        s(0.0),
        s(2.0_f64.sqrt() / 2.0),
        s(2.0_f64.sqrt() / 2.0)
    )));

    assert!(full_quarter
        .coords_mul(point)
        .equal(Point::new_point(s(0.0), s(0.0), s(1.0))));
}

#[test]
fn transforms_rotation_x_inverse() {
    let half_quarter = rotation_x(PI / 4.0).inverse();
    let point = Point::new_point(s(0.0), s(1.0), s(0.0));

    assert!(half_quarter.unwrap().coords_mul(point).equal(Point::new_point(
        s(0.0),
        s(2.0_f64.sqrt() / 2.0),
        s(-2.0_f64.sqrt() / 2.0)
    )));
}

#[test]
fn transforms_rotation_y() {
    let half_quarter = rotation_y(PI / 4.0);
    let full_quarter = rotation_y(PI / 2.0);
    let point = Point::new_point(s(0.0), s(0.0), s(1.0));

    assert!(half_quarter.coords_mul(point).equal(Point::new_point(
        s(2.0_f64.sqrt() / 2.0),
        s(0.0),
        s(2.0_f64.sqrt() / 2.0)
    )));

    assert!(full_quarter
        .coords_mul(point)
        .equal(Point::new_point(s(1.0), s(0.0), s(0.0))));
}

#[test]
fn transforms_rotation_z() {
    let half_quarter = rotation_z(PI / 4.0);
    let full_quarter = rotation_z(PI / 2.0);
    let point = Point::new_point(s(0.0), s(1.0), s(0.0));

    assert!(half_quarter.coords_mul(point).equal(Point::new_point(
        s(-(2.0_f64.sqrt()) / 2.0),
        s(2.0_f64.sqrt() / 2.0),
        s(0.0)
    )));

    assert!(full_quarter
        .coords_mul(point)
        .equal(Point::new_point(s(-1.0), s(0.0), s(0.0))));
}

#[test]
fn transforms_shearing() {
    let mut matrix = Matrix::shearing(s(1.0), s(0.0), s(0.0), s(0.0), s(0.0), s(0.0));
    let point = Point::new_point(s(2.0), s(3.0), s(4.0));

    assert_eq!(
        matrix.coords_mul(point),
        Point::new_point(s(5.0), s(3.0), s(4.0))
    );

    matrix = Matrix::shearing(s(0.0), s(1.0), s(0.0), s(0.0), s(0.0), s(0.0));
    assert_eq!(
        matrix.coords_mul(point),
        Point::new_point(s(6.0), s(3.0), s(4.0))
    );

    matrix = Matrix::shearing(s(0.0), s(0.0), s(1.0), s(0.0), s(0.0), s(0.0));
    assert_eq!(
        matrix.coords_mul(point),
        Point::new_point(s(2.0), s(5.0), s(4.0))
    );

    matrix = Matrix::shearing(s(0.0), s(0.0), s(0.0), s(1.0), s(0.0), s(0.0));
    assert_eq!(
        matrix.coords_mul(point),
        Point::new_point(s(2.0), s(7.0), s(4.0))
    );

    matrix = Matrix::shearing(s(0.0), s(0.0), s(0.0), s(0.0), s(1.0), s(0.0));
    assert_eq!(
        matrix.coords_mul(point),
        Point::new_point(s(2.0), s(3.0), s(6.0))
    );

    matrix = Matrix::shearing(s(0.0), s(0.0), s(0.0), s(0.0), s(0.0), s(1.0));
    assert_eq!(
        matrix.coords_mul(point),
        Point::new_point(s(2.0), s(3.0), s(7.0))
    );
}

#[test]
fn transforms_chaining() {
    let rotation = rotation_x(PI / 2.0);
    let scaling = Matrix::scaling(s(5.0), s(5.0), s(5.0));
    let translation = Matrix::translation(s(10.0), s(5.0), s(7.0));

    let point = Point::new_point(s(1.0), s(0.0), s(1.0));

    let transformed_point = translation.mul(&scaling).mul(&rotation).coords_mul(point);
    assert!(transformed_point.equal(Point::new_point(s(15.0), s(0.0), s(7.0))));
}

#[test]
fn transforms_chaining_sequence() {
    let rotation = rotation_x(PI / 2.0);
    let scaling = Matrix::scaling(s(5.0), s(5.0), s(5.0));
    let translation = Matrix::translation(s(10.0), s(5.0), s(7.0));

    let point = Point::new_point(s(1.0), s(0.0), s(1.0));

    let mut transformed_point = rotation.coords_mul(point);
    assert!(transformed_point.equal(Point::new_point(s(1.0), s(-1.0), s(0.0))));

    transformed_point = scaling.coords_mul(transformed_point);
    assert!(transformed_point.equal(Point::new_point(s(5.0), s(-5.0), s(0.0))));

    transformed_point = translation.coords_mul(transformed_point);
    assert!(transformed_point.equal(Point::new_point(s(15.0), s(0.0), s(7.0))));
}

#[test]
fn transforms_view_transform_default() {
    let from = Point::new_point(s(0.0), s(0.0), s(0.0));
    let to = Point::new_point(s(0.0), s(0.0), s(-1.0));
    let up = Vector::new_vector(s(0.0), s(1.0), s(0.0));

    let t = Matrix::view_transform(from, to, up);
    assert!(t.equal(&Matrix::new_identity()));
}

#[test]
fn transforms_view_transform_positive_z() {
    let from = Point::new_point(s(0.0), s(0.0), s(0.0));
    let to = Point::new_point(s(0.0), s(0.0), s(1.0));
    let up = Vector::new_vector(s(0.0), s(1.0), s(0.0));

    let t = Matrix::view_transform(from, to, up);
    assert!(t.equal(&Matrix::scaling(s(-1.0), s(1.0), s(-1.0))));
}

#[test]
fn transforms_view_transform_move_world() {
    let from = Point::new_point(s(0.0), s(0.0), s(8.0));
    let to = Point::new_point(s(0.0), s(0.0), s(0.0));
    let up = Vector::new_vector(s(0.0), s(1.0), s(0.0));

    let t = Matrix::view_transform(from, to, up);
    assert!(t.equal(&Matrix::translation(s(0.0), s(0.0), s(-8.0))));
}

#[test]
fn transforms_view_transform_arbitrary() {
    let rows = [
        [s(-0.50709), s(0.50709), s(0.67612), s(-2.36643)],
        [s(0.76771), s(0.60609), s(0.12121), s(-2.82842)],
        [s(-0.35856), s(0.59761), s(-0.71713), s(0.0)],
        [s(0.0), s(0.0), s(0.0), s(1.0)],
    ];

    let from = Point::new_point(s(1.0), s(3.0), s(2.0));
    let to = Point::new_point(s(4.0), s(-2.0), s(8.0));
    let up = Vector::new_vector(s(1.0), s(1.0), s(0.0));

    let t = Matrix::view_transform(from, to, up);
    assert!(t.equal(&Matrix::new_with_rows(rows)));
}
