use ray_tracer::approx::ApproxEq;
use ray_tracer::color::Color;
use ray_tracer::fx::Fx;
use ray_tracer::intersections::{Intersection, IntersectionDetails, Intersections};
use ray_tracer::lights::PointLight;
use ray_tracer::material::Material;
use ray_tracer::patterns::Pattern;
use ray_tracer::point::Point;
use ray_tracer::primitives::PrimitiveShape::{PlaneShape, SphereShape};
use ray_tracer::primitives::{Plane, Sphere};
use ray_tracer::ray::Ray;
use ray_tracer::transformations::Transformable;
use ray_tracer::vector::Vector3;
use ray_tracer::world::World;

fn fxi(v: i64) -> Fx {
    Fx::from_int(v)
}

fn fxm(v: i64) -> Fx {
    Fx::from_micro(v)
}

fn p(x: i64, y: i64, z: i64) -> Point {
    Point::new(fxi(x), fxi(y), fxi(z))
}

fn v(x: i64, y: i64, z: i64) -> Vector3 {
    Vector3::new(fxi(x), fxi(y), fxi(z))
}

fn half_sqrt2() -> Fx {
    fxi(2).sqrt().div(fxi(2))
}

fn color(r: i64, g: i64, b: i64) -> Color {
    Color::new(fxm(r), fxm(g), fxm(b))
}

fn inner_sphere() -> Sphere {
    Sphere::default().scale(fxm(500_000), fxm(500_000), fxm(500_000)).transform()
}

fn outer_sphere() -> Sphere {
    Sphere::default().apply_material(
        Material::default()
            .color(color(800_000, 1_000_000, 600_000))
            .specular(fxm(200_000))
            .diffuse(fxm(700_000)),
    )
}

fn simulated_world() -> World {
    World::default()
        .add_object(SphereShape(inner_sphere()))
        .add_object(SphereShape(outer_sphere()))
        .add_light_source(PointLight::new(Color::new(fxi(1), fxi(1), fxi(1)), p(-10, 10, -10)))
}

#[test]
fn world_creation() {
    let world = World::default();

    assert_eq!(0, world.objects.len());
    assert_eq!(0, world.light_sources.len());
}

#[test]
fn world_with_objects() {
    let world = simulated_world();

    let expected_sphere = SphereShape(inner_sphere());
    assert_eq!(expected_sphere, world.objects[0]);
    assert_eq!(2, world.objects.len());
    assert_eq!(1, world.light_sources.len());
}

#[test]
fn world_with_objects_intersections() {
    let world = simulated_world();
    let ray = Ray::new(p(0, 0, -5), v(0, 0, 1));

    let intersections = world.intersect_objects(&ray);

    assert_eq!(4, intersections.intersections.len());
    assert!(intersections.intersections[0].time.approx_eq_low(&fxi(4)));
    assert!(intersections.intersections[1].time.approx_eq_low(&fxm(4_500_000)));
    assert!(intersections.intersections[2].time.approx_eq_low(&fxm(5_500_000)));
    assert!(intersections.intersections[3].time.approx_eq_low(&fxi(6)));
}

#[test]
fn world_shade_intersection() {
    let world = simulated_world();
    let ray = Ray::new(p(0, 0, -5), v(0, 0, 1));

    let intersection = Intersection::new(fxi(4), world.objects[1]);
    let details = IntersectionDetails::from(&intersection, &ray);

    let expected_color = color(380_660, 475_830, 285_500);
    assert!(expected_color.approx_eq_low(&world.shade_hit(&details, 0)));
}

#[test]
fn world_shade_intersection_from_inside() {
    let world = simulated_world().with_light_sources(vec![PointLight::new(
        Color::new(fxi(1), fxi(1), fxi(1)),
        Point::new(fxi(0), fxm(250_000), fxi(0)),
    )]);
    let ray = Ray::new(p(0, 0, 0), v(0, 0, 1));

    let intersection = Intersection::new(fxm(500_000), SphereShape(inner_sphere()));
    let details = IntersectionDetails::from(&intersection, &ray);

    let expected_color = color(904_980, 904_980, 904_980);
    assert!(expected_color.approx_eq_low(&world.shade_hit(&details, 0)));
}

#[test]
fn world_color_at_ray_miss() {
    let world = simulated_world();
    let ray = Ray::new(p(0, 0, -5), v(0, 1, 0));

    assert!(Color::black().approx_eq(&world.color_at_recursive(&ray, 0)));
}

#[test]
fn world_color_at_ray_hits() {
    let world = simulated_world();
    let ray = Ray::new(p(0, 0, -5), v(0, 0, 1));

    let expected_color = color(380_660, 475_830, 285_500);
    assert!(expected_color.approx_eq_low(&world.color_at_recursive(&ray, 0)));
}

#[test]
fn world_color_behind_the_ray() {
    let outer = SphereShape(
        Sphere::default().apply_material(
            Material::default().diffuse(fxm(700_000)).specular(fxm(200_000)).ambient(fxi(1)),
        ),
    );
    let inner = SphereShape(Sphere::default().apply_material(Material::default().ambient(fxi(1))));

    let world = simulated_world().with_objects(vec![outer, inner]);
    let ray = Ray::new(Point::new(fxi(0), fxi(0), fxm(750_000)), v(0, 0, -1));

    let expected_color = color(1_000_000, 1_000_000, 1_000_000);
    assert!(expected_color.approx_eq_low(&world.color_at_recursive(&ray, 0)));
}

#[test]
fn world_there_are_no_shadow() {
    let world = simulated_world();
    assert_eq!(false, world.shadow_cast(p(0, 10, 0)));
}

#[test]
fn world_there_are_shadow_between_sphere_and_light() {
    let world = simulated_world();
    assert_eq!(true, world.shadow_cast(p(10, -10, 10)));
}

#[test]
fn world_there_are_no_shadow_point_behind_light() {
    let world = simulated_world();
    assert_eq!(false, world.shadow_cast(p(-20, 20, -20)));
}

#[test]
fn world_there_are_no_shadow_between_sphere_and_light() {
    let world = simulated_world();
    assert_eq!(false, world.shadow_cast(p(-2, 2, -2)));
}

#[test]
fn world_intersection_in_shadow() {
    let sphere_a = SphereShape(Sphere::default());
    let sphere_b = SphereShape(Sphere::default().translate(fxi(0), fxi(0), fxi(10)).transform());
    let light_point = PointLight::new(Color::new(fxi(1), fxi(1), fxi(1)), p(0, 0, -10));

    let world = World::default()
        .with_objects(vec![sphere_a, sphere_b])
        .with_light_sources(vec![light_point]);

    let ray = Ray::new(p(0, 0, 5), v(0, 0, 1));
    let intersection = Intersection::new(fxi(4), sphere_b);
    let details = IntersectionDetails::from(&intersection, &ray);

    let expected_color = color(100_000, 100_000, 100_000);
    assert!(expected_color.approx_eq_low(&world.shade_hit(&details, 0)));
}

#[test]
fn world_reflected_color_for_nonreflective() {
    let world = simulated_world();
    let ray = Ray::new(p(0, 0, 0), v(0, 0, -1));

    let sphere = Sphere::default()
        .scale(fxm(500_000), fxm(500_000), fxm(500_000))
        .transform()
        .apply_material(Material::default().ambient(fxi(1)));

    let intersection = Intersection::new(fxi(1), SphereShape(sphere));
    let details = IntersectionDetails::from(&intersection, &ray);

    assert!(Color::black().approx_eq(&world.reflect_color(&details, 0)));
}

#[test]
fn world_reflected_color_for_reflective() {
    let world = simulated_world();
    let ray = Ray::new(p(0, 0, -3), Vector3::new(fxi(0), half_sqrt2().neg(), half_sqrt2()));

    let plane = Plane::default()
        .translate(fxi(0), fxi(-1), fxi(0))
        .transform()
        .apply_material(Material::default().reflective(fxm(500_000)));

    let intersection = Intersection::new(fxi(2).sqrt(), PlaneShape(plane));
    let details = IntersectionDetails::from(&intersection, &ray);

    let expected_color = color(190_320, 237_900, 142_740);
    assert!(expected_color.approx_eq_low(&world.reflect_color(&details, 1)));
}

#[test]
fn world_reflected_color_for_reflective_shade_hit() {
    let world = simulated_world();
    let ray = Ray::new(p(0, 0, -3), Vector3::new(fxi(0), half_sqrt2().neg(), half_sqrt2()));

    let plane = Plane::default()
        .translate(fxi(0), fxi(-1), fxi(0))
        .transform()
        .apply_material(Material::default().reflective(fxm(500_000)));

    let intersection = Intersection::new(fxi(2).sqrt(), PlaneShape(plane));
    let details = IntersectionDetails::from(&intersection, &ray);

    let expected_color = color(876_770, 924_360, 829_180);
    assert!(expected_color.approx_eq_low(&world.shade_hit(&details, 1)));
}

#[test]
fn world_refracted_color_with_opaque_surface() {
    let ray = Ray::new(p(0, 0, -5), v(0, 0, 1));

    let sphere = SphereShape(
        Sphere::default()
            .scale(fxm(500_000), fxm(500_000), fxm(500_000))
            .transform()
            .apply_material(Material::default()),
    );

    let intersection_a = Intersection::new(fxi(4), sphere);
    let intersection_b = Intersection::new(fxi(6), sphere);
    let intersections = Intersections::new().with(vec![intersection_a, intersection_b]);

    let world = simulated_world().with_objects(vec![sphere]);
    let details = IntersectionDetails::from_many(&intersection_a, &intersections, &ray);

    assert!(Color::black().approx_eq(&world.refracted_color(&details, 5)));
}

#[test]
fn world_refracted_color_under_total_internal_reflection() {
    let ray = Ray::new(Point::new(fxi(0), fxi(0), half_sqrt2()), v(0, 1, 0));

    let sphere = SphereShape(
        Sphere::default()
            .scale(fxm(500_000), fxm(500_000), fxm(500_000))
            .transform()
            .apply_material(Material::default().transparency(fxi(1)).refractive_index(fxm(1_500_000))),
    );

    let intersection_a = Intersection::new(half_sqrt2().neg(), sphere);
    let intersection_b = Intersection::new(half_sqrt2(), sphere);
    let intersections = Intersections::new().with(vec![intersection_a, intersection_b]);

    let world = simulated_world().with_objects(vec![sphere]);
    let details = IntersectionDetails::from_many(&intersection_b, &intersections, &ray);

    assert!(Color::black().approx_eq(&world.refracted_color(&details, 5)));
}

#[test]
fn world_refracted_color_with_refracted_ray() {
    let ray = Ray::new(Point::new(fxi(0), fxi(0), fxm(100_000)), v(0, 1, 0));

    let sphere_a = SphereShape(
        Sphere::default().apply_material(
            Material::default().apply_pattern(Pattern::new_test()).ambient(fxi(1)),
        ),
    );
    let sphere_b = SphereShape(
        Sphere::default()
            .apply_material(Material::default().transparency(fxi(1)).refractive_index(fxm(1_500_000))),
    );

    let intersection_a_1 = Intersection::new(fxm(-989_900), sphere_a);
    let intersection_b_1 = Intersection::new(fxm(-489_900), sphere_b);
    let intersection_b_2 = Intersection::new(fxm(489_900), sphere_b);
    let intersection_a_2 = Intersection::new(fxm(989_900), sphere_a);
    let intersections = Intersections::new().with(vec![
        intersection_a_1,
        intersection_b_1,
        intersection_b_2,
        intersection_a_2,
    ]);

    let world = simulated_world().with_objects(vec![sphere_a, sphere_b]);
    let details = IntersectionDetails::from_many(&intersection_b_2, &intersections, &ray);

    let expected_color = color(0, 998_880, 47_250);
    assert!(expected_color.approx_eq_low(&world.refracted_color(&details, 5)));
}

#[test]
fn world_refracted_color_shade_hit_transparent_material() {
    let ray = Ray::new(p(0, 0, -3), Vector3::new(fxi(0), half_sqrt2().neg(), half_sqrt2()));

    let floor = PlaneShape(
        Plane::default()
            .translate(fxi(0), fxi(-1), fxi(0))
            .transform()
            .apply_material(Material::default().transparency(fxm(500_000)).refractive_index(fxm(1_500_000))),
    );
    let sphere = SphereShape(
        Sphere::default()
            .translate(fxi(0), fxm(-3_500_000), fxm(-500_000))
            .transform()
            .apply_material(Material::default().ambient(fxm(500_000)).color(Color::red())),
    );

    let intersection = Intersection::new(fxi(2).sqrt(), floor);
    let world = simulated_world().with_objects(vec![floor, sphere]);

    let intersections = Intersections::new().with(vec![intersection]);
    let details = IntersectionDetails::from_many(&intersection, &intersections, &ray);

    let expected_color = color(936_420, 686_420, 686_420);
    assert!(expected_color.approx_eq_low(&world.shade_hit(&details, 5)));
}
