use ray_tracer::base_types::{prepare_computations, Intersection, Point, Ray, Vector};
use ray_tracer::scalar::Scalar;
use ray_tracer::visuals::{Color, Light, Material};
use ray_tracer::world::World;

fn s(v: f64) -> Scalar {
    Scalar::from_bits((v * 4294967296.0).round() as i128)
}

fn with_index(distances: &[Scalar], object_index: usize) -> Vec<Intersection> {
    let mut out = Vec::new();
    for d in distances {
        out.push(Intersection { distance: *d, object_index });
    }
    out
}

fn material_with_ambient(world: &World, index: usize, ambient: Scalar) -> Material {
    let m = world.objects[index].get_material();
    Material::new(
        m.color,
        Vec::new(),
        ambient,
        m.diffuse,
        m.specular,
        m.shininess,
        m.reflective,
        m.transparency,
        m.refractive_index,
    )
}

#[test]
fn world_default_world_intersect() {
    let world = World::default();
    let ray = Ray::new(
        Point::new_point(s(0.0), s(0.0), s(-5.0)),
        Vector::new_vector(s(0.0), s(0.0), s(1.0)),
    );
    let intersections = world.intersect(ray);

    assert_eq!(intersections[0].distance, s(4.0));
    assert_eq!(intersections[1].distance, s(4.5));
    assert_eq!(intersections[2].distance, s(5.5));
    assert_eq!(intersections[3].distance, s(6.0));
}

#[test]
fn world_shading_an_intersection() {
    let world = World::default();
    let ray = Ray::new(
        Point::new_point(s(0.0), s(0.0), s(-5.0)),
        Vector::new_vector(s(0.0), s(0.0), s(1.0)),
    );

    let distances = world.objects[0].intersect(ray).unwrap();
    let intersections = with_index(&distances, 0);
    let intersection_details = prepare_computations(0, ray, &intersections, &world.objects);

    assert!(world
        .shade_hit(intersection_details, 5)
        .equal(Color::new(s(0.38066), s(0.47583), s(0.2855))));
}

#[test]
fn world_shading_an_inside_intersection() {
    let mut world = World::default();
    world.lights = vec![Light::new(
        Point::new_point(s(0.0), s(0.25), s(0.0)),
        Color::new(s(1.0), s(1.0), s(1.0)),
    )];
    let ray = Ray::new(
        Point::new_point(s(0.0), s(0.0), s(0.0)),
        Vector::new_vector(s(0.0), s(0.0), s(1.0)),
    );

    let distances = world.objects[1].intersect(ray).unwrap();
    let intersections = with_index(&distances, 1);
    // we want the 0.5 intersection, which would be second here
    let intersection_details = prepare_computations(1, ray, &intersections, &world.objects);
    assert!(intersection_details.is_inside);

    assert!(world
        .shade_hit(intersection_details, 5)
        .equal(Color::new(s(0.90498), s(0.90498), s(0.90498))));
}

#[test]
fn world_shading_in_shadow() {
    let mut world = World::default();
    world.lights = vec![Light::new(
        Point::new_point(s(0.0), s(0.0), s(-10.0)),
        Color::new(s(1.0), s(1.0), s(1.0)),
    )];
    world.objects[1]
        .set_transform(ray_tracer::matrices::Matrix::translation(s(0.0), s(0.0), s(10.0)));
    let ray = Ray::new(
        Point::new_point(s(0.0), s(0.0), s(5.0)),
        Vector::new_vector(s(0.0), s(0.0), s(1.0)),
    );

    let distances = world.objects[1].intersect(ray).unwrap();
    let intersections = with_index(&distances, 1);
    let intersection_details = prepare_computations(0, ray, &intersections, &world.objects);
    assert!(world
        .shade_hit(intersection_details, 5)
        .equal(Color::new(s(0.1), s(0.1), s(0.1))));
}

#[test]
fn world_color_ray_misses() {
    let world = World::default();
    let ray = Ray::new(
        Point::new_point(s(0.0), s(0.0), s(-5.0)),
        Vector::new_vector(s(0.0), s(1.0), s(0.0)),
    );

    assert_eq!(
        world.color_at(ray, None),
        Color::new(s(0.0), s(0.0), s(0.0))
    );
}

#[test]
fn world_color_ray_hits() {
    let world = World::default();
    let ray = Ray::new(
        Point::new_point(s(0.0), s(0.0), s(-5.0)),
        Vector::new_vector(s(0.0), s(0.0), s(1.0)),
    );

    assert!(world
        .color_at(ray, None)
        .equal(Color::new(s(0.38066), s(0.47583), s(0.2855))));
}

#[test]
fn world_color_ray_hits_behind() {
    let mut world = World::default();

    let material_1 = material_with_ambient(&world, 1, s(1.0));
    world.objects[1].set_material(material_1);

    let material_0 = material_with_ambient(&world, 0, s(1.0));
    world.objects[0].set_material(material_0);

    let ray = Ray::new(
        Point::new_point(s(0.0), s(0.0), s(0.75)),
        Vector::new_vector(s(0.0), s(0.0), s(-1.0)),
    );

    let inner_color = world.objects[1].get_material().color;
    assert!(world.color_at(ray, None).equal(inner_color));
}

#[test]
fn world_is_shadowed_false() {
    let world = World::default();

    assert!(!world.is_shadowed(Point::new_point(s(0.0), s(10.0), s(0.0)), 0));
}

#[test]
fn world_behind_sphere_is_shadowed() {
    let world = World::default();

    assert!(world.is_shadowed(Point::new_point(s(10.0), s(-10.0), s(10.0)), 0));
}

#[test]
fn world_sphere_not_between_light_and_point() {
    let world = World::default();

    assert!(!world.is_shadowed(Point::new_point(s(-20.0), s(20.0), s(-20.0)), 0));
}

#[test]
fn world_point_in_between_object_and_light() {
    let world = World::default();

    assert!(!world.is_shadowed(Point::new_point(s(-2.0), s(2.0), s(-2.0)), 0));
}
