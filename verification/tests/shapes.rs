use ray_tracer::approx::ApproxEq;
use ray_tracer::fx::Fx;
use ray_tracer::material::Material;
use ray_tracer::matrices::{Matrix, Matrix4};
use ray_tracer::point::Point;
use ray_tracer::primitives::{Cube, Plane, Triangle};
use ray_tracer::ray::Ray;
use ray_tracer::vector::Vector3;

fn fxi(v: i64) -> Fx {
    Fx::from_int(v)
}

fn fxm(v: i64) -> Fx {
    Fx::from_micro(v)
}

fn p(x: i64, y: i64, z: i64) -> Point {
    Point::new(fxi(x), fxi(y), fxi(z))
}

fn v(x: i64, y: i64, z: i64) -> Vector3 {
    Vector3::new(fxi(x), fxi(y), fxi(z))
}

#[test]
fn plane_creation() {
    let plane = Plane::default();

    assert_eq!(Material::default(), plane.material);
    assert_eq!(Matrix4::identity(), plane.transformation);
}

#[test]
fn plane_intersect_with_parallel_ray() {
    let plane = Plane::default();
    let ray = Ray::new(p(0, 10, 0), v(0, 0, 1));

    assert!(plane.intersect(&ray).is_empty());
}

#[test]
fn plane_intersect_with_coplanar_ray() {
    let plane = Plane::default();
    let ray = Ray::new(p(0, 0, 0), v(0, 0, 1));

    assert!(plane.intersect(&ray).is_empty());
}

#[test]
fn plane_intersect_from_above() {
    let plane = Plane::default();
    let ray = Ray::new(p(0, 1, 0), v(0, -1, 0));

    let intersections = plane.intersect(&ray);
    assert_eq!(intersections.intersections.len(), 1);
    assert!(intersections.intersections[0].time.approx_eq(&fxi(1)));
}

#[test]
fn plane_intersect_from_below() {
    let plane = Plane::default();
    let ray = Ray::new(p(0, -1, 0), v(0, 1, 0));

    let intersections = plane.intersect(&ray);
    assert_eq!(intersections.intersections.len(), 1);
    assert!(intersections.intersections[0].time.approx_eq(&fxi(1)));
}

#[test]
fn cube_creation() {
    let cube = Cube::default();

    assert_eq!(Material::default(), cube.material);
    assert_eq!(Matrix4::identity(), cube.transformation);
}

#[test]
fn cube_ray_intersection() {
    let cube = Cube::default();

    let cases = [
        (Point::new(fxi(5), fxm(500_000), fxi(0)), v(-1, 0, 0)),
        (Point::new(fxi(-5), fxm(500_000), fxi(0)), v(1, 0, 0)),
        (Point::new(fxm(500_000), fxi(5), fxi(0)), v(0, -1, 0)),
        (Point::new(fxm(500_000), fxi(-5), fxi(0)), v(0, 1, 0)),
        (Point::new(fxm(500_000), fxi(0), fxi(5)), v(0, 0, -1)),
        (Point::new(fxm(500_000), fxi(0), fxi(-5)), v(0, 0, 1)),
    ];
    for (origin, direction) in cases.iter() {
        let intersections = cube.intersect(&Ray::new(*origin, *direction));
        assert_eq!(intersections.intersections.len(), 2);
        assert!(intersections.intersections[0].time.approx_eq(&fxi(4)));
        assert!(intersections.intersections[1].time.approx_eq(&fxi(6)));
    }

    let inside = cube.intersect(&Ray::new(Point::new(fxi(0), fxm(500_000), fxi(0)), v(0, 0, 1)));
    assert!(inside.intersections[0].time.approx_eq(&fxi(-1)));
    assert!(inside.intersections[1].time.approx_eq(&fxi(1)));
}

#[test]
fn cube_ray_miss_intersection() {
    let cube = Cube::default();

    let cases = [
        (p(-2, 0, 0), Vector3::new(fxm(267_300), fxm(534_500), fxm(801_800))),
        (p(0, -2, 0), Vector3::new(fxm(801_800), fxm(267_300), fxm(534_500))),
        (p(0, 0, -2), Vector3::new(fxm(534_500), fxm(801_800), fxm(267_300))),
        (p(2, 0, 2), v(0, 0, -1)),
        (p(0, 2, 2), v(0, -1, 0)),
        (p(2, 2, 0), v(-1, 0, 0)),
    ];
    for (origin, direction) in cases.iter() {
        let intersections = cube.intersect(&Ray::new(*origin, *direction));
        assert!(intersections.is_empty());
    }
}

#[test]
fn cube_normal_on_surface() {
    let cube = Cube::default();

    let normal = cube.normal(&Point::new(fxi(1), fxm(500_000), fxm(-800_000)));
    assert!(v(1, 0, 0).approx_eq(&normal));

    let normal = cube.normal(&Point::new(fxi(-1), fxm(-200_000), fxm(900_000)));
    assert!(v(-1, 0, 0).approx_eq(&normal));
}

#[test]
fn triangle_creation() {
    let triangle = Triangle::default();
    let expected = Triangle::from(Point::default(), Point::default(), Point::default());

    assert_eq!(expected.point_a, triangle.point_a);
    assert_eq!(expected.point_b, triangle.point_b);
    assert_eq!(expected.point_c, triangle.point_c);
}

#[test]
fn triangle_creation_addition() {
    let triangle = Triangle::from(p(0, 1, 0), p(-1, 0, 0), p(1, 0, 0));

    assert!(v(-1, -1, 0).approx_eq(&triangle.e_hit_a));
    assert!(v(1, -1, 0).approx_eq(&triangle.e_hit_b));
    assert!(v(0, 0, -1).approx_eq(&triangle.normal));
}

#[test]
fn triangle_normal() {
    let triangle = Triangle::from(p(0, 1, 0), p(-1, 0, 0), p(1, 0, 0));
    let expected_normal = triangle.normal;

    assert_eq!(expected_normal, triangle.normal(&Point::new(fxi(0), fxm(500_000), fxi(0))));
    assert_eq!(
        expected_normal,
        triangle.normal(&Point::new(fxm(-500_000), fxm(750_000), fxi(0))),
    );
    assert_eq!(
        expected_normal,
        triangle.normal(&Point::new(fxm(500_000), fxm(250_000), fxi(0))),
    );
}

#[test]
fn triangle_intersect_ray_parallel() {
    let triangle = Triangle::from(p(0, 1, 0), p(-1, 0, 0), p(1, 0, 0));
    let ray = Ray::new(p(0, -1, -2), v(0, 1, 0));

    assert!(triangle.intersect(&ray).is_empty());
}

#[test]
fn triangle_intersect_hits_once() {
    let triangle = Triangle::from(p(0, 1, 0), p(-1, 0, 0), p(1, 0, 0));
    let ray = Ray::new(Point::new(fxi(0), fxm(500_000), fxi(-2)), v(0, 0, 1));

    let intersections = triangle.intersect(&ray);
    assert_eq!(intersections.intersections.len(), 1);
    assert!(intersections.intersections[0].time.approx_eq(&fxi(2)));
}

#[test]
fn triangle_intersect_misses_edges() {
    let triangle = Triangle::from(p(0, 1, 0), p(-1, 0, 0), p(1, 0, 0));

    let over_p3 = Ray::new(p(1, 1, -2), v(0, 0, 1));
    assert!(triangle.intersect(&over_p3).is_empty());

    let over_p2 = Ray::new(p(-1, 1, -2), v(0, 0, 1));
    assert!(triangle.intersect(&over_p2).is_empty());

    let under_p1 = Ray::new(p(0, -1, -2), v(0, 0, 1));
    assert!(triangle.intersect(&under_p1).is_empty());
}
