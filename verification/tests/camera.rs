use ray_tracer::base_types::{Point, Vector};
use ray_tracer::matrices::Matrix;
use ray_tracer::scalar::Scalar;
use ray_tracer::utils::float_equal;
use ray_tracer::visuals::Color;
use ray_tracer::world::{Camera, World};
use std::f64::consts::PI;

fn s(v: f64) -> Scalar {
    Scalar::from_bits((v * 4294967296.0).round() as i128)
}

fn camera_with_fov(hsize: usize, vsize: usize, field_of_view: f64) -> Camera {
    Camera::new(hsize, vsize, s((field_of_view / 2.0).tan()))
}

fn rotation_y(theta: f64) -> Matrix {
    Matrix::rotation_y(s(theta.cos()), s(theta.sin()))
}

#[test]
fn pixel_size() {
    let horiz_camera = camera_with_fov(200, 125, PI / 2.0);

    assert!(float_equal(horiz_camera.pixel_size, s(0.01)));

    let vert_camera = camera_with_fov(125, 200, PI / 2.0);

    assert!(float_equal(vert_camera.pixel_size, s(0.01)));
}

#[test]
fn ray_for_pixel_center() {
    let camera = camera_with_fov(201, 101, PI / 2.0);
    let ray = camera.ray_for_pixel(100, 50);

    assert_eq!(ray.origin, Point::new_point(s(0.0), s(0.0), s(0.0)));
    assert!(ray
        .direction
        .equal(Vector::new_vector(s(0.0), s(0.0), s(-1.0))));
}

#[test]
fn ray_for_pixel_corner() {
    let camera = camera_with_fov(201, 101, PI / 2.0);
    let ray = camera.ray_for_pixel(0, 0);

    assert_eq!(ray.origin, Point::new_point(s(0.0), s(0.0), s(0.0)));
    assert!(ray
        .direction
        .equal(Vector::new_vector(s(0.66519), s(0.33259), s(-0.66851))));
}

#[test]
fn ray_for_pixel_with_transform() {
    let mut camera = camera_with_fov(201, 101, PI / 2.0);
    camera.transform = rotation_y(PI / 4.0).mul(&Matrix::translation(s(0.0), s(-2.0), s(5.0)));
    let ray = camera.ray_for_pixel(100, 50);

    assert!(ray
        .origin
        .equal(Point::new_point(s(0.0), s(2.0), s(-5.0))));
    assert!(ray.direction.equal(Vector::new_vector(
        s(2.0_f64.sqrt() / 2.0),
        s(0.0),
        s(-(2.0_f64.sqrt()) / 2.0)
    )));
}

#[test]
fn render_default() {
    let world = World::default();
    let mut camera = camera_with_fov(11, 11, PI / 2.0);
    let from = Point::new_point(s(0.0), s(0.0), s(-5.0));
    let to = Point::new_point(s(0.0), s(0.0), s(0.0));
    let up = Vector::new_vector(s(0.0), s(1.0), s(0.0));
    camera.transform = Matrix::view_transform(from, to, up);

    let image = camera.render(&world);
    assert!(image[5][5].equal(Color::new(s(0.38066), s(0.47583), s(0.2855))));
}
