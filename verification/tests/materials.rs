use ray_tracer::approx::ApproxEq;
use ray_tracer::color::Color;
use ray_tracer::fx::Fx;
use ray_tracer::lights::PointLight;
use ray_tracer::material::Material;
use ray_tracer::patterns::Pattern;
use ray_tracer::point::Point;
use ray_tracer::primitives::PrimitiveShape::SphereShape;
use ray_tracer::primitives::Sphere;
use ray_tracer::vector::Vector3;

fn fxi(v: i64) -> Fx {
    Fx::from_int(v)
}

fn fxm(v: i64) -> Fx {
    Fx::from_micro(v)
}

fn p(x: i64, y: i64, z: i64) -> Point {
    Point::new(fxi(x), fxi(y), fxi(z))
}

fn v(x: i64, y: i64, z: i64) -> Vector3 {
    Vector3::new(fxi(x), fxi(y), fxi(z))
}

fn white_light(x: i64, y: i64, z: i64) -> PointLight {
    PointLight::new(Color::new(fxi(1), fxi(1), fxi(1)), p(x, y, z))
}

fn gray(c: i64) -> Color {
    Color::new(fxm(c), fxm(c), fxm(c))
}

fn half_sqrt2() -> Fx {
    fxi(2).sqrt().div(fxi(2))
}

#[test]
fn material_default_creation() {
    let default_material = Material::default();

    assert_eq!(Color::white(), default_material.color);
    assert_eq!(fxm(100_000), default_material.ambient);
    assert_eq!(fxm(900_000), default_material.diffuse);
    assert_eq!(fxm(900_000), default_material.specular);
    assert_eq!(fxi(200), default_material.shininess);
}

#[test]
fn material_reflects_color_between_light_and_surface() {
    let material = Material::default();
    let sphere = SphereShape(Sphere::default());
    let light = white_light(0, 0, -10);

    let color = material.color_reflection(light, sphere, p(0, 0, 0), v(0, 0, -1), v(0, 0, -1), false);
    assert!(gray(1_900_000).approx_eq_low(&color));
}

#[test]
fn material_reflects_color_between_light_and_surface_eye_offset_45_degree() {
    let material = Material::default();
    let sphere = SphereShape(Sphere::default());
    let light = white_light(0, 0, -10);
    let eye_vector = Vector3::new(fxi(0), half_sqrt2(), half_sqrt2().neg());

    let color = material.color_reflection(light, sphere, p(0, 0, 0), eye_vector, v(0, 0, -1), false);
    assert!(gray(1_000_000).approx_eq_low(&color));
}

#[test]
fn material_reflects_color_between_light_and_surface_light_offset_45_degree() {
    let material = Material::default();
    let sphere = SphereShape(Sphere::default());
    let light = white_light(0, 10, -10);

    let color = material.color_reflection(light, sphere, p(0, 0, 0), v(0, 0, -1), v(0, 0, -1), false);
    assert!(gray(736_400).approx_eq_low(&color));
}

#[test]
fn material_reflects_color_between_light_and_surface_reflection() {
    let material = Material::default();
    let sphere = SphereShape(Sphere::default());
    let light = white_light(0, 10, -10);
    let eye_vector = Vector3::new(fxi(0), half_sqrt2().neg(), half_sqrt2().neg());

    let color = material.color_reflection(light, sphere, p(0, 0, 0), eye_vector, v(0, 0, -1), false);
    assert!(gray(1_636_400).approx_eq_low(&color));
}

#[test]
fn material_reflects_color_behind_surface() {
    let material = Material::default();
    let sphere = SphereShape(Sphere::default());
    let light = white_light(0, 0, 10);

    let color = material.color_reflection(light, sphere, p(0, 0, 0), v(0, 0, -1), v(0, 0, -1), false);
    assert!(gray(100_000).approx_eq_low(&color));
}

#[test]
fn material_color_with_surface_in_shadow() {
    let material = Material::default();
    let sphere = SphereShape(Sphere::default());
    let light = white_light(0, 0, -10);

    let color = material.color_reflection(light, sphere, p(0, 0, 0), v(0, 0, -1), v(0, 0, -1), true);
    assert!(gray(100_000).approx_eq_low(&color));
}

#[test]
fn material_with_pattern() {
    let material = Material::default()
        .ambient(fxi(1))
        .diffuse(fxi(0))
        .specular(fxi(0))
        .apply_pattern(Pattern::new_stripe(Color::white(), Color::black()));
    let sphere = SphereShape(Sphere::default());
    let light = white_light(0, 0, -10);

    let color_a = material.color_reflection(
        light,
        sphere,
        Point::new(fxm(900_000), fxi(0), fxi(0)),
        v(0, 0, -1),
        v(0, 0, -1),
        false,
    );
    let color_b = material.color_reflection(
        light,
        sphere,
        Point::new(fxm(1_100_000), fxi(0), fxi(0)),
        v(0, 0, -1),
        v(0, 0, -1),
        false,
    );

    assert!(Color::white().approx_eq(&color_a));
    assert!(Color::black().approx_eq(&color_b));
}
