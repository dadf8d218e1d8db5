use ray_tracer::base_types::Coordinates;
use ray_tracer::scalar::Scalar;
use ray_tracer::visuals::{Color, GradientPattern, Pattern, RingPattern, StripePattern};

fn s(v: f64) -> Scalar {
    Scalar::from_bits((v * 4294967296.0).round() as i128)
}

fn white() -> Color {
    Color::new(s(1.0), s(1.0), s(1.0))
}

fn black() -> Color {
    Color::new(s(0.0), s(0.0), s(0.0))
}

#[test]
fn constant_in_y() {
    let stripe_pattern = StripePattern::new(white(), black(), None);

    assert_eq!(
        stripe_pattern.stripe_at(Coordinates::new_point(s(0.0), s(0.0), s(0.0))),
        white()
    );

    assert_eq!(
        stripe_pattern.stripe_at(Coordinates::new_point(s(0.0), s(1.0), s(0.0))),
        white()
    );

    assert_eq!(
        stripe_pattern.stripe_at(Coordinates::new_point(s(0.0), s(2.0), s(0.0))),
        white()
    );
}

#[test]
fn constant_in_z() {
    let stripe_pattern = StripePattern::new(white(), black(), None);

    assert_eq!(
        stripe_pattern.stripe_at(Coordinates::new_point(s(0.0), s(0.0), s(0.0))),
        white()
    );

    assert_eq!(
        stripe_pattern.stripe_at(Coordinates::new_point(s(0.0), s(0.0), s(1.0))),
        white()
    );

    assert_eq!(
        stripe_pattern.stripe_at(Coordinates::new_point(s(0.0), s(0.0), s(2.0))),
        white()
    );
}

#[test]
fn alternate_in_x() {
    let stripe_pattern = StripePattern::new(white(), black(), None);

    assert_eq!(
        stripe_pattern.stripe_at(Coordinates::new_point(s(0.0), s(0.0), s(0.0))),
        white()
    );

    assert_eq!(
        stripe_pattern.stripe_at(Coordinates::new_point(s(0.9), s(0.0), s(0.0))),
        white()
    );

    assert_eq!(
        stripe_pattern.stripe_at(Coordinates::new_point(s(1.0), s(0.0), s(0.0))),
        black()
    );

    assert_eq!(
        stripe_pattern.stripe_at(Coordinates::new_point(s(-0.1), s(0.0), s(0.0))),
        black()
    );

    assert_eq!(
        stripe_pattern.stripe_at(Coordinates::new_point(s(-1.0), s(0.0), s(0.0))),
        black()
    );

    assert_eq!(
        stripe_pattern.stripe_at(Coordinates::new_point(s(-1.1), s(0.0), s(0.0))),
        white()
    );
}

#[test]
fn gradient_color_at_works() {
    let color_a = Color::new(s(1.0), s(1.0), s(1.0));
    let color_b = Color::new(s(0.0), s(0.0), s(0.0));
    let pattern = Pattern::Gradient(GradientPattern::new(color_a, color_b, None));

    assert_eq!(
        pattern.color_at(Coordinates::new_point(s(0.0), s(0.0), s(0.0))),
        color_a
    );
    assert_eq!(
        pattern.color_at(Coordinates::new_point(s(0.25), s(0.0), s(0.0))),
        Color::new(s(0.75), s(0.75), s(0.75))
    );
    assert_eq!(
        pattern.color_at(Coordinates::new_point(s(0.5), s(0.0), s(0.0))),
        Color::new(s(0.5), s(0.5), s(0.5))
    );
    assert_eq!(
        pattern.color_at(Coordinates::new_point(s(0.75), s(0.0), s(0.0))),
        Color::new(s(0.25), s(0.25), s(0.25))
    );
}

#[test]
fn ring_color_at_works() {
    let color_a = Color::new(s(0.0), s(0.0), s(0.0));
    let color_b = Color::new(s(1.0), s(1.0), s(1.0));
    let pattern = Pattern::Ring(RingPattern::new(color_a, color_b, None));

    assert_eq!(
        pattern.color_at(Coordinates::new_point(s(0.0), s(0.0), s(0.0))),
        color_a
    );
    assert_eq!(
        pattern.color_at(Coordinates::new_point(s(1.0), s(0.0), s(0.0))),
        color_b
    );
    assert_eq!(
        pattern.color_at(Coordinates::new_point(s(0.0), s(0.0), s(1.0))),
        color_b
    );
    assert_eq!(
        pattern.color_at(Coordinates::new_point(s(0.708), s(0.0), s(0.708))),
        color_b
    );
}

#[test]
fn patterns_clone_independently() {
    let stripes = Pattern::Stripe(StripePattern::new(white(), black(), None));
    let copy = stripes.clone_pattern();
    let probe = Coordinates::new_point(s(1.5), s(0.0), s(0.0));
    assert_eq!(stripes.color_at(probe), copy.color_at(probe));
    assert_eq!(stripes.color_at(probe), black());
}
