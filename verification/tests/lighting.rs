use ray_tracer::base_types::{Point, Vector};
use ray_tracer::scalar::Scalar;
use ray_tracer::visuals::{lighting, Color, Light, Material};
use ray_tracer::world::{Sphere, WorldShape};

fn s(v: f64) -> Scalar {
    Scalar::from_bits((v * 4294967296.0).round() as i128)
}

#[test]
fn light_lighting_eye_between() {
    let sphere = WorldShape::Sphere(Sphere::default());
    let position = Point::new_point(s(0.0), s(0.0), s(0.0));
    let eye_normal = Vector::new_vector(s(0.0), s(0.0), s(-1.0));
    let surface_normal = Vector::new_vector(s(0.0), s(0.0), s(-1.0));
    let light_point = Light::new(
        Point::new_point(s(0.0), s(0.0), s(-10.0)),
        Color::new(s(1.0), s(1.0), s(1.0)),
    );

    assert!(light_point
        .lighting(&sphere, position, eye_normal, surface_normal, false)
        .equal(Color::new(s(1.9), s(1.9), s(1.9))));
}

#[test]
fn light_lighting_eye_45_offset() {
    let sphere = WorldShape::Sphere(Sphere::default());
    let position = Point::new_point(s(0.0), s(0.0), s(0.0));
    let eye_normal = Vector::new_vector(
        s(0.0),
        s(2.0_f64.sqrt() / 2.0),
        s(-(2.0_f64.sqrt()) / 2.0),
    );
    let surface_normal = Vector::new_vector(s(0.0), s(0.0), s(-1.0));
    let light_point = Light::new(
        Point::new_point(s(0.0), s(0.0), s(-10.0)),
        Color::new(s(1.0), s(1.0), s(1.0)),
    );

    assert!(light_point
        .lighting(&sphere, position, eye_normal, surface_normal, false)
        .equal(Color::new(s(1.0), s(1.0), s(1.0))));
}

#[test]
fn light_lighting_light_45_offset() {
    let sphere = WorldShape::Sphere(Sphere::default());
    let position = Point::new_point(s(0.0), s(0.0), s(0.0));
    let eye_normal = Vector::new_vector(s(0.0), s(0.0), s(-1.0));
    let surface_normal = Vector::new_vector(s(0.0), s(0.0), s(-1.0));
    let light_point = Light::new(
        Point::new_point(s(0.0), s(10.0), s(-10.0)),
        Color::new(s(1.0), s(1.0), s(1.0)),
    );

    assert!(light_point
        .lighting(&sphere, position, eye_normal, surface_normal, false)
        .equal(Color::new(s(0.7364), s(0.7364), s(0.7364))));
}

#[test]
fn light_lighting_light_opposite_offset() {
    let sphere = WorldShape::Sphere(Sphere::default());
    let position = Point::new_point(s(0.0), s(0.0), s(0.0));
    let eye_normal = Vector::new_vector(
        s(0.0),
        s(-(2.0_f64.sqrt()) / 2.0),
        s(-(2.0_f64.sqrt()) / 2.0),
    );
    let surface_normal = Vector::new_vector(s(0.0), s(0.0), s(-1.0));
    let light_point = Light::new(
        Point::new_point(s(0.0), s(10.0), s(-10.0)),
        Color::new(s(1.0), s(1.0), s(1.0)),
    );

    assert!(light_point
        .lighting(&sphere, position, eye_normal, surface_normal, false)
        .equal(Color::new(s(1.6364), s(1.6364), s(1.6364))));
}

#[test]
fn light_lighting_light_behind_surface() {
    let sphere = WorldShape::Sphere(Sphere::default());
    let position = Point::new_point(s(0.0), s(0.0), s(0.0));
    let eye_normal = Vector::new_vector(s(0.0), s(0.0), s(-1.0));
    let surface_normal = Vector::new_vector(s(0.0), s(0.0), s(-1.0));
    let light_point = Light::new(
        Point::new_point(s(0.0), s(0.0), s(10.0)),
        Color::new(s(1.0), s(1.0), s(1.0)),
    );

    assert!(light_point
        .lighting(&sphere, position, eye_normal, surface_normal, false)
        .equal(Color::new(s(0.1), s(0.1), s(0.1))));
}

#[test]
fn light_lighting_in_shadow() {
    let sphere = WorldShape::Sphere(Sphere::default());
    let position = Point::new_point(s(0.0), s(0.0), s(0.0));
    let eye_normal = Vector::new_vector(s(0.0), s(0.0), s(-1.0));
    let surface_normal = Vector::new_vector(s(0.0), s(0.0), s(-1.0));
    let light_point = Light::new(
        Point::new_point(s(0.0), s(0.0), s(-10.0)),
        Color::new(s(1.0), s(1.0), s(1.0)),
    );

    assert!(light_point
        .lighting(&sphere, position, eye_normal, surface_normal, true)
        .equal(Color::new(s(0.1), s(0.1), s(0.1))));
}

#[test]
fn shading_lighting_eye_between() {
    let material = Material::default();
    let position = Point::new_point(s(0.0), s(0.0), s(0.0));
    let eye_normal = Vector::new_vector(s(0.0), s(0.0), s(-1.0));
    let surface_normal = Vector::new_vector(s(0.0), s(0.0), s(-1.0));
    let light_point = Light::new(
        Point::new_point(s(0.0), s(0.0), s(-10.0)),
        Color::new(s(1.0), s(1.0), s(1.0)),
    );

    assert!(lighting(
        &material,
        light_point,
        position,
        eye_normal,
        surface_normal,
        false
    )
    .equal(Color::new(s(1.9), s(1.9), s(1.9))));
}

#[test]
fn shading_lighting_eye_45_offset() {
    let material = Material::default();
    let position = Point::new_point(s(0.0), s(0.0), s(0.0));
    let eye_normal = Vector::new_vector(
        s(0.0),
        s(2.0_f64.sqrt() / 2.0),
        s(-(2.0_f64.sqrt()) / 2.0),
    );
    let surface_normal = Vector::new_vector(s(0.0), s(0.0), s(-1.0));
    let light_point = Light::new(
        Point::new_point(s(0.0), s(0.0), s(-10.0)),
        Color::new(s(1.0), s(1.0), s(1.0)),
    );

    assert!(lighting(
        &material,
        light_point,
        position,
        eye_normal,
        surface_normal,
        false
    )
    .equal(Color::new(s(1.0), s(1.0), s(1.0))));
}

#[test]
fn shading_lighting_light_45_offset() {
    let material = Material::default();
    let position = Point::new_point(s(0.0), s(0.0), s(0.0));
    let eye_normal = Vector::new_vector(s(0.0), s(0.0), s(-1.0));
    let surface_normal = Vector::new_vector(s(0.0), s(0.0), s(-1.0));
    let light_point = Light::new(
        Point::new_point(s(0.0), s(10.0), s(-10.0)),
        Color::new(s(1.0), s(1.0), s(1.0)),
    );

    assert!(lighting(
        &material,
        light_point,
        position,
        eye_normal,
        surface_normal,
        false
    )
    .equal(Color::new(s(0.7364), s(0.7364), s(0.7364))));
}

#[test]
fn shading_lighting_light_opposite_offset() {
    let material = Material::default();
    let position = Point::new_point(s(0.0), s(0.0), s(0.0));
    let eye_normal = Vector::new_vector(
        s(0.0),
        s(-(2.0_f64.sqrt()) / 2.0),
        s(-(2.0_f64.sqrt()) / 2.0),
    );
    let surface_normal = Vector::new_vector(s(0.0), s(0.0), s(-1.0));
    let light_point = Light::new(
        Point::new_point(s(0.0), s(10.0), s(-10.0)),
        Color::new(s(1.0), s(1.0), s(1.0)),
    );

    assert!(lighting(
        &material,
        light_point,
        position,
        eye_normal,
        surface_normal,
        false
    )
    .equal(Color::new(s(1.6364), s(1.6364), s(1.6364))));
}

#[test]
fn shading_lighting_light_behind_surface() {
    let material = Material::default();
    let position = Point::new_point(s(0.0), s(0.0), s(0.0));
    let eye_normal = Vector::new_vector(s(0.0), s(0.0), s(-1.0));
    let surface_normal = Vector::new_vector(s(0.0), s(0.0), s(-1.0));
    let light_point = Light::new(
        Point::new_point(s(0.0), s(0.0), s(10.0)),
        Color::new(s(1.0), s(1.0), s(1.0)),
    );

    assert!(lighting(
        &material,
        light_point,
        position,
        eye_normal,
        surface_normal,
        false
    )
    .equal(Color::new(s(0.1), s(0.1), s(0.1))));
}

#[test]
fn shading_lighting_in_shadow() {
    let material = Material::default();
    let position = Point::new_point(s(0.0), s(0.0), s(0.0));
    let eye_normal = Vector::new_vector(s(0.0), s(0.0), s(-1.0));
    let surface_normal = Vector::new_vector(s(0.0), s(0.0), s(-1.0));
    let light_point = Light::new(
        Point::new_point(s(0.0), s(0.0), s(-10.0)),
        Color::new(s(1.0), s(1.0), s(1.0)),
    );

    assert!(lighting(
        &material,
        light_point,
        position,
        eye_normal,
        surface_normal,
        true
    )
    .equal(Color::new(s(0.1), s(0.1), s(0.1))));
}
