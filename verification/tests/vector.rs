use ray_tracer::base_types::Vector;
use ray_tracer::scalar::Scalar;

fn s(v: f64) -> Scalar {
    Scalar::from_bits((v * 4294967296.0).round() as i128)
}

#[test]
fn add() {
    let vec1 = Vector::new_vector(s(1.01), s(3.0), s(5.5));
    let vec2 = Vector::new_vector(s(-1.01), s(13.254), s(-42.0));

    assert!(vec1.add(vec2).equal(Vector::new_vector(
        s(1.01 - 1.01),
        s(3.0 + 13.254),
        s(5.5 - 42.0)
    )));
}

#[test]
fn sub() {
    let vec1 = Vector::new_vector(s(1.01), s(3.0), s(5.5));
    let vec2 = Vector::new_vector(s(-1.01), s(13.254), s(-42.0));

    assert!(vec1.sub(vec2).equal(Vector::new_vector(
        s(1.01 + 1.01),
        s(3.0 - 13.254),
        s(5.5 + 42.0)
    )));
}

#[test]
fn mul_scalar() {
    let vec1 = Vector::new_vector(s(1.01), s(3.0), s(5.5));

    assert!(vec1.mul(s(2.0)).equal(Vector::new_vector(
        s(1.01 * 2.0),
        s(3.0 * 2.0),
        s(5.5 * 2.0)
    )));
}

#[test]
fn div_scalar() {
    let vec1 = Vector::new_vector(s(1.01), s(3.0), s(5.5));

    assert!(vec1.div(s(2.0)).equal(Vector::new_vector(
        s(1.01 / 2.0),
        s(3.0 / 2.0),
        s(5.5 / 2.0)
    )));
}

#[test]
fn dot() {
    let vec1 = Vector::new_vector(s(1.01), s(3.0), s(5.5));
    let vec2 = Vector::new_vector(s(-1.01), s(13.254), s(-42.0));

    assert!(ray_tracer::utils::float_equal(
        vec1.dot(vec2),
        s(1.01 * -1.01 + 3.0 * 13.254 + 5.5 * -42.0)
    ));
}

#[test]
fn cross() {
    let vec1 = Vector::new_vector(s(1.01), s(3.0), s(5.5));
    let vec2 = Vector::new_vector(s(-1.01), s(13.254), s(-42.0));

    assert!(vec1.cross(vec2).equal(Vector::new_vector(
        s(3.0 * -42.0 - 13.254 * 5.5),
        s(5.5 * -1.01 - -42.0 * 1.01),
        s(1.01 * 13.254 - -1.01 * 3.0),
    )));
}

#[test]
fn reflect() {
    let vec1 = Vector::new_vector(s(1.0), s(-1.0), s(0.0));
    let vec2 = Vector::new_vector(s(0.0), s(1.0), s(0.0));

    assert!(vec1
        .reflect(vec2)
        .equal(Vector::new_vector(s(1.0), s(1.0), s(0.0))));
}

#[test]
fn reflect_slanted() {
    let vec1 = Vector::new_vector(s(0.0), s(-1.0), s(0.0));
    let vec2 = Vector::new_vector(
        s(2.0_f64.sqrt() / 2.0),
        s(2.0_f64.sqrt() / 2.0),
        s(0.0),
    );

    assert!(vec1
        .reflect(vec2)
        .equal(Vector::new_vector(s(1.0), s(0.0), s(0.0))));
}
