use ray_tracer::approx::ApproxEq;
use ray_tracer::camera::Camera;
use ray_tracer::color::Color;
use ray_tracer::fx::Fx;
use ray_tracer::lights::PointLight;
use ray_tracer::material::Material;
use ray_tracer::point::Point;
use ray_tracer::primitives::PrimitiveShape::SphereShape;
use ray_tracer::primitives::Sphere;
use ray_tracer::render::{Render, Rendering};
use ray_tracer::transformations::Over;
use ray_tracer::transformations::Transform::{Rotate, Scale, Translate};
use ray_tracer::transformations::Transformable;
use ray_tracer::vector::Vector3;
use ray_tracer::ray::Ray;
use ray_tracer::world::World;

fn fxi(v: i64) -> Fx {
    Fx::from_int(v)
}

fn fxm(v: i64) -> Fx {
    Fx::from_micro(v)
}

fn p(x: i64, y: i64, z: i64) -> Point {
    Point::new(fxi(x), fxi(y), fxi(z))
}

fn small_world() -> World {
    World::default()
        .add_object(SphereShape(
            Sphere::default().scale(fxm(500_000), fxm(500_000), fxm(500_000)).transform(),
        ))
        .add_object(SphereShape(Sphere::default().apply_material(
            Material::default()
                .color(Color::new(fxm(800_000), fxi(1), fxm(600_000)))
                .specular(fxm(200_000))
                .diffuse(fxm(700_000)),
        )))
        .add_light_source(PointLight::new(Color::white(), p(-10, 10, -10)))
}

#[test]
fn matrix_inverse_round_trip_on_point() {
    let matrix = Translate(fxi(5), fxi(-3), fxi(2))
        .transformation()
        .mul_matrix(Rotate(Over::Y, Fx::pi().div(fxi(4))).transformation())
        .mul_matrix(Scale(fxi(2), fxi(3), fxi(4)).transformation());
    let point = p(1, 2, 3);

    let round_trip = matrix.invert().mul_point(matrix.mul_point(point));
    assert!(point.approx_eq_low(&round_trip));
}

#[test]
fn transform_order_scale_then_translate() {
    let point = p(0, 0, 0)
        .scale(fxi(2), fxi(2), fxi(2))
        .translate(fxi(1), fxi(0), fxi(0))
        .transform();

    assert!(p(1, 0, 0).approx_eq(&point));
}

#[test]
fn sphere_intersection_times_from_outside_and_inside() {
    let sphere = Sphere::default();

    let from_outside = sphere.intersect(&Ray::new(p(0, 0, -5), Vector3::new(fxi(0), fxi(0), fxi(1))));
    assert!(from_outside.intersections[0].time.approx_eq(&fxi(4)));
    assert!(from_outside.intersections[1].time.approx_eq(&fxi(6)));

    let from_inside = sphere.intersect(&Ray::new(p(0, 0, 0), Vector3::new(fxi(0), fxi(0), fxi(1))));
    assert!(from_inside.intersections[0].time.approx_eq(&fxi(-1)));
    assert!(from_inside.intersections[1].time.approx_eq(&fxi(1)));
}

#[test]
fn shadow_disappears_with_the_blocker() {
    let blocked = World::default()
        .add_object(SphereShape(Sphere::default()))
        .add_light_source(PointLight::new(Color::white(), p(0, 0, -10)));
    assert!(blocked.shadow_cast(p(0, 0, 5)));

    let open_scene = World::default()
        .add_light_source(PointLight::new(Color::white(), p(0, 0, -10)));
    assert!(!open_scene.shadow_cast(p(0, 0, 5)));
}

#[test]
fn sequential_and_banded_render_agree() {
    let world = small_world();
    let camera = Camera::new(7, 11, Fx::pi().div(fxi(2)));

    let sequential = camera.render(&world, Render { render_mode: Rendering::Sequential });
    let banded = camera.render(&world, Render { render_mode: Rendering::Parallel });

    assert_eq!(sequential.pixels, banded.pixels);
    assert_eq!(sequential.width, banded.width);
    assert_eq!(sequential.height, banded.height);
}
