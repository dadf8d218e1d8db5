use ray_tracer::base_types::{Coordinates, Point, Ray, Vector};
use ray_tracer::matrices::Matrix;
use ray_tracer::scalar::Scalar;
use ray_tracer::visuals::{CheckerPattern, Color, Pattern, PerturbPattern, StripePattern};
use ray_tracer::world::Sphere;

fn s(v: f64) -> Scalar {
    Scalar::from_bits((v * 4294967296.0).round() as i128)
}

fn white() -> Color {
    Color::new(s(1.0), s(1.0), s(1.0))
}

fn black() -> Color {
    Color::new(s(0.0), s(0.0), s(0.0))
}

// the checker floors each axis on its own and alternates by the parity
// of the summed whole numbers
#[test]
fn checker_alternates_in_every_axis() {
    let pattern = Pattern::Checker(CheckerPattern::new(white(), black(), None));

    assert_eq!(
        pattern.color_at(Coordinates::new_point(s(0.0), s(0.0), s(0.0))),
        white()
    );
    assert_eq!(
        pattern.color_at(Coordinates::new_point(s(0.99), s(0.0), s(0.0))),
        white()
    );
    assert_eq!(
        pattern.color_at(Coordinates::new_point(s(1.01), s(0.0), s(0.0))),
        black()
    );
    assert_eq!(
        pattern.color_at(Coordinates::new_point(s(1.01), s(1.01), s(0.0))),
        white()
    );
    assert_eq!(
        pattern.color_at(Coordinates::new_point(s(0.0), s(0.0), s(-0.01))),
        black()
    );
}

// the perturb decorator displaces the sample point before delegating
#[test]
fn perturb_displaces_the_sample() {
    let stripes = Pattern::Stripe(StripePattern::new(white(), black(), None));
    let perturbed = Pattern::Perturb(PerturbPattern::new(stripes));

    // undisturbed stripes at x = 0.9 are white; the offset
    // (0.9 + 0 + 0) * (sqrt(4) - 1) / 3 = 0.3 pushes the sample to
    // x = 1.2, into the black stripe
    assert_eq!(
        perturbed.color_at(Coordinates::new_point(s(0.9), s(0.0), s(0.0))),
        black()
    );
    assert_eq!(
        perturbed.color_at(Coordinates::new_point(s(0.0), s(0.0), s(0.0))),
        white()
    );
}

// a non-invertible transform silently degrades the object to
// unhittable instead of failing the render
#[test]
fn unhittable_with_singular_transform() {
    let ray = Ray::new(
        Point::new_point(s(0.0), s(0.0), s(-5.0)),
        Vector::new_vector(s(0.0), s(0.0), s(1.0)),
    );
    let mut sphere = Sphere::default();
    sphere.set_transform(Matrix::scaling(s(0.0), s(0.0), s(0.0)));

    assert!(sphere.intersect(ray).is_none());
}
