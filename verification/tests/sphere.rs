use ray_tracer::base_types::{Point, Ray, Vector};
use ray_tracer::matrices::Matrix;
use ray_tracer::scalar::Scalar;
use ray_tracer::visuals::{Color, Material, Pattern, StripePattern};
use ray_tracer::world::Sphere;
use std::f64::consts::PI;

fn s(v: f64) -> Scalar {
    Scalar::from_bits((v * 4294967296.0).round() as i128)
}

fn rotation_z(theta: f64) -> Matrix {
    Matrix::rotation_z(s(theta.cos()), s(theta.sin()))
}

#[test]
fn sphere_normal() {
    let sphere = Sphere::default();

    assert_eq!(
        sphere.normal_at(Point::new_point(s(1.0), s(0.0), s(0.0))),
        Vector::new_vector(s(1.0), s(0.0), s(0.0))
    );

    assert_eq!(
        sphere.normal_at(Point::new_point(s(0.0), s(1.0), s(0.0))),
        Vector::new_vector(s(0.0), s(1.0), s(0.0))
    );

    assert_eq!(
        sphere.normal_at(Point::new_point(s(0.0), s(0.0), s(1.0))),
        Vector::new_vector(s(0.0), s(0.0), s(1.0))
    );

    let three: f64 = 3.0;
    assert!(sphere
        .normal_at(Point::new_point(
            s(three.sqrt() / three),
            s(three.sqrt() / three),
            s(three.sqrt() / three)
        ))
        .equal(Vector::new_vector(
            s(three.sqrt() / three),
            s(three.sqrt() / three),
            s(three.sqrt() / three)
        )));
}

#[test]
fn sphere_normal_with_transform() {
    let mut sphere = Sphere::default();
    sphere.set_transform(Matrix::translation(s(0.0), s(1.0), s(0.0)));

    assert!(sphere
        .normal_at(Point::new_point(s(0.0), s(1.70711), s(-0.707111)))
        .equal(Vector::new_vector(s(0.0), s(0.707111), s(-0.707111))));

    sphere.set_transform(
        Matrix::scaling(s(1.0), s(0.5), s(1.0)).mul(&rotation_z(PI / 5.0)),
    );

    assert!(sphere
        .normal_at(Point::new_point(
            s(0.0),
            s(2.0_f64.sqrt() / 2.0),
            s(-(2.0_f64.sqrt()) / 2.0)
        ))
        .equal(Vector::new_vector(s(0.0), s(0.97014), s(-0.24254))));
}

#[test]
fn sphere_intersect() {
    let ray = Ray::new(
        Point::new_point(s(400.0), s(250.0), s(-5.0)),
        Vector::new_vector(s(0.0), s(0.0), s(1.0)),
    );
    let mut sphere = Sphere::default();

    sphere.set_transform(Matrix::translation(s(400.0), s(250.0), s(0.0)));

    let intersections_opt = sphere.intersect(ray);
    assert!(intersections_opt.is_some());

    let intersections = intersections_opt.unwrap();
    assert_eq!(intersections[0], s(4.0));
    assert_eq!(intersections[1], s(6.0));
}

#[test]
fn sphere_intersect_tangent() {
    let ray = Ray::new(
        Point::new_point(s(0.0), s(1.0), s(-5.0)),
        Vector::new_vector(s(0.0), s(0.0), s(1.0)),
    );
    let sphere = Sphere::default();

    let intersections_opt = sphere.intersect(ray);
    assert!(intersections_opt.is_some());

    let intersections = intersections_opt.unwrap();
    assert_eq!(intersections.len(), 2);
    assert_eq!(intersections[0], s(5.0));
    assert_eq!(intersections[1], s(5.0));
}

#[test]
fn sphere_intersect_miss() {
    let ray = Ray::new(
        Point::new_point(s(0.0), s(2.0), s(-5.0)),
        Vector::new_vector(s(0.0), s(0.0), s(1.0)),
    );
    let sphere = Sphere::default();

    assert!(sphere.intersect(ray).is_none());
}

#[test]
fn sphere_intersect_middle() {
    let ray = Ray::new(
        Point::new_point(s(0.0), s(0.0), s(0.0)),
        Vector::new_vector(s(0.0), s(0.0), s(1.0)),
    );
    let sphere = Sphere::default();

    let intersections_opt = sphere.intersect(ray);
    assert!(intersections_opt.is_some());

    let intersections = intersections_opt.unwrap();
    assert_eq!(intersections[0], s(-1.0));
    assert_eq!(intersections[1], s(1.0));
}

#[test]
fn sphere_intersect_scaled() {
    let ray = Ray::new(
        Point::new_point(s(0.0), s(0.0), s(-5.0)),
        Vector::new_vector(s(0.0), s(0.0), s(1.0)),
    );
    let mut sphere = Sphere::default();
    sphere.set_transform(Matrix::scaling(s(2.0), s(2.0), s(2.0)));

    let intersections_opt = sphere.intersect(ray);
    assert!(intersections_opt.is_some());

    let intersections = intersections_opt.unwrap();
    assert_eq!(intersections[0], s(3.0));
    assert_eq!(intersections[1], s(7.0));
}

#[test]
fn intersect_translate() {
    let ray = Ray::new(
        Point::new_point(s(0.0), s(0.0), s(-5.0)),
        Vector::new_vector(s(0.0), s(0.0), s(1.0)),
    );
    let mut sphere = Sphere::default();
    sphere.set_transform(Matrix::translation(s(5.0), s(0.0), s(0.0)));

    assert!(sphere.intersect(ray).is_none());
}

#[test]
fn intersect_translate_miss() {
    let ray = Ray::new(
        Point::new_point(s(0.0), s(0.0), s(-5.0)),
        Vector::new_vector(s(0.0), s(0.0), s(1.0)),
    );
    let mut sphere = Sphere::default();
    sphere.set_transform(Matrix::translation(s(5.0), s(0.0), s(0.0)));

    assert!(sphere.intersect(ray).is_none());
}

#[test]
fn color_at_with_object_transform() {
    let color_a = Color::new(s(0.0), s(0.0), s(0.0));
    let color_b = Color::new(s(1.0), s(1.0), s(1.0));
    let pattern = StripePattern::new(color_a, color_b, None);

    let mut sphere = Sphere::default();

    let mut material = Material::default();
    material.patterns = vec![Pattern::Stripe(pattern)];
    sphere.set_material(material);

    sphere.set_transform(Matrix::scaling(s(2.0), s(2.0), s(2.0)));

    assert_eq!(
        sphere.color_at(Point::new_point(s(1.5), s(0.0), s(0.0))),
        color_a
    );
    assert_eq!(
        sphere.color_at(Point::new_point(s(3.5), s(0.0), s(0.0))),
        color_b
    );
}

#[test]
fn color_at_with_pattern_transform() {
    let color_a = Color::new(s(0.0), s(0.0), s(0.0));
    let color_b = Color::new(s(1.0), s(1.0), s(1.0));
    let mut pattern = StripePattern::new(color_a, color_b, None);
    pattern.set_transform(Matrix::scaling(s(2.0), s(2.0), s(2.0)));

    let mut sphere = Sphere::default();

    let mut material = Material::default();
    material.patterns = vec![Pattern::Stripe(pattern)];
    sphere.set_material(material);

    assert_eq!(
        sphere.color_at(Point::new_point(s(1.5), s(0.0), s(0.0))),
        color_a
    );
    assert_eq!(
        sphere.color_at(Point::new_point(s(3.5), s(0.0), s(0.0))),
        color_b
    );
}

#[test]
fn color_at_with_pattern_and_object_transform() {
    let color_a = Color::new(s(0.0), s(0.0), s(0.0));
    let color_b = Color::new(s(1.0), s(1.0), s(1.0));
    let mut pattern = StripePattern::new(color_a, color_b, None);
    pattern.set_transform(Matrix::translation(s(0.5), s(0.0), s(0.0)));

    let mut sphere = Sphere::default();
    sphere.set_transform(Matrix::scaling(s(2.0), s(2.0), s(2.0)));

    let mut material = Material::default();
    material.patterns = vec![Pattern::Stripe(pattern)];
    sphere.set_material(material);

    assert_eq!(
        sphere.color_at(Point::new_point(s(2.5), s(0.0), s(0.0))),
        color_a
    );
    assert_eq!(
        sphere.color_at(Point::new_point(s(3.5), s(0.0), s(0.0))),
        color_b
    );
}
