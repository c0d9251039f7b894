use ray_tracer::approx::ApproxEq;
use ray_tracer::fx::Fx;
use ray_tracer::material::Material;
use ray_tracer::matrices::{Matrix, Matrix4};
use ray_tracer::point::Point;
use ray_tracer::primitives::PrimitiveShape::SphereShape;
use ray_tracer::primitives::Sphere;
use ray_tracer::ray::Ray;
use ray_tracer::transformations::Transform;
use ray_tracer::transformations::{Over, Transformable};
use ray_tracer::vector::Vector3;

fn fxi(v: i64) -> Fx {
    Fx::from_int(v)
}

fn fxm(v: i64) -> Fx {
    Fx::from_micro(v)
}

fn p(x: i64, y: i64, z: i64) -> Point {
    Point::new(fxi(x), fxi(y), fxi(z))
}

fn v(x: i64, y: i64, z: i64) -> Vector3 {
    Vector3::new(fxi(x), fxi(y), fxi(z))
}

fn times(sphere: &Sphere, ray: &Ray) -> Vec<Fx> {
    sphere.intersect(ray).intersections.iter().map(|i| i.time).collect()
}

#[test]
fn sphere_creation() {
    let sphere = Sphere::new(p(0, 0, 0), fxi(1), Material::default());

    assert_eq!(Point::default(), sphere.origin);
    assert_eq!(fxi(1), sphere.radius);
}

#[test]
fn sphere_creation_default() {
    let sphere = Sphere::default();

    assert_eq!(Point::default(), sphere.origin);
    assert_eq!(fxi(1), sphere.radius);
}

#[test]
fn ray_intersect_sphere_at_two_points() {
    let ray = Ray::new(p(0, 0, -5), v(0, 0, 1));
    let sphere = Sphere::default();

    let ts = times(&sphere, &ray);
    assert_eq!(ts.len(), 2);
    assert!(ts[0].approx_eq(&fxi(4)));
    assert!(ts[1].approx_eq(&fxi(6)));
}

#[test]
fn ray_intersect_sphere_at_one_point() {
    let ray = Ray::new(p(0, 1, -5), v(0, 0, 1));
    let sphere = Sphere::default();

    let ts = times(&sphere, &ray);
    assert_eq!(ts.len(), 2);
    assert!(ts[0].approx_eq_low(&fxi(5)));
    assert!(ts[1].approx_eq_low(&fxi(5)));
}

#[test]
fn ray_originated_inside_intersects_sphere() {
    let ray = Ray::new(p(0, 0, 0), v(0, 0, 1));
    let sphere = Sphere::default();

    let ts = times(&sphere, &ray);
    assert_eq!(ts.len(), 2);
    assert!(ts[0].approx_eq(&fxi(-1)));
    assert!(ts[1].approx_eq(&fxi(1)));
}

#[test]
fn ray_behind_sphere() {
    let ray = Ray::new(p(0, 0, 5), v(0, 0, 1));
    let sphere = Sphere::default();

    let ts = times(&sphere, &ray);
    assert_eq!(ts.len(), 2);
    assert!(ts[0].approx_eq(&fxi(-6)));
    assert!(ts[1].approx_eq(&fxi(-4)));
}

#[test]
fn sphere_transformation_matrix() {
    let sphere = Sphere::default();
    assert_eq!(Matrix4::identity(), sphere.transformation);
}

#[test]
fn sphere_translation_matrix() {
    let sphere = Sphere::default().translate(fxi(2), fxi(3), fxi(4)).transform();
    let expected = Transform::Translate(fxi(2), fxi(3), fxi(4)).transformation();

    assert!(expected.approx_eq_low(&sphere.transformation));
}

#[test]
fn ray_intersect_scaled_sphere() {
    let ray = Ray::new(p(0, 0, -5), v(0, 0, 1));
    let sphere = SphereShape(Sphere::default().scale(fxi(2), fxi(2), fxi(2)).transform());

    let intersections = sphere.intersect(&ray);
    assert_eq!(intersections.intersections.len(), 2);
    assert!(intersections.intersections[0].time.approx_eq_low(&fxi(3)));
    assert!(intersections.intersections[1].time.approx_eq_low(&fxi(7)));
}

#[test]
fn ray_intersect_translated_sphere() {
    let ray = Ray::new(p(0, 0, -5), v(0, 0, 1));
    let sphere = SphereShape(Sphere::default().translate(fxi(5), fxi(0), fxi(0)).transform());

    let intersections = sphere.intersect(&ray);
    assert!(intersections.is_empty());
}

#[test]
fn sphere_normal_on_x() {
    let sphere = Sphere::default();
    let normal_vector = SphereShape(sphere).normal(&p(1, 0, 0));

    assert!(v(1, 0, 0).approx_eq(&normal_vector));
}

#[test]
fn sphere_normal_on_y() {
    let sphere = Sphere::default();
    let normal_vector = SphereShape(sphere).normal(&p(0, 1, 0));

    assert!(v(0, 1, 0).approx_eq(&normal_vector));
}

#[test]
fn sphere_normal_on_z() {
    let sphere = Sphere::default();
    let normal_vector = SphereShape(sphere).normal(&p(0, 0, 1));

    assert!(v(0, 0, 1).approx_eq(&normal_vector));
}

#[test]
fn sphere_normal_nonaxial() {
    let sphere = Sphere::default();
    let c = fxi(3).sqrt().div(fxi(3));
    let point = Point::new(c, c, c);
    let normal_vector = SphereShape(sphere).normal(&point);

    assert!(Vector3::new(c, c, c).approx_eq_low(&normal_vector));
}

#[test]
fn sphere_normal_is_normalized() {
    let sphere = Sphere::default();
    let c = fxi(3).sqrt().div(fxi(3));
    let point = Point::new(c, c, c);
    let normal_vector = SphereShape(sphere).normal(&point);

    assert!(normal_vector.approx_eq_low(&normal_vector.normalize()));
}

#[test]
fn sphere_translated_normal() {
    let sphere = Sphere::default().translate(fxi(0), fxi(1), fxi(0)).transform();
    let point = Point::new(fxi(0), fxm(1_707_107), fxm(-707_107));
    let normal_vector = SphereShape(sphere).normal(&point);

    assert!(Vector3::new(fxi(0), fxm(707_107), fxm(-707_107)).approx_eq_low(&normal_vector));
}

#[test]
fn sphere_transformed_normal() {
    let sphere = Sphere::default()
        .rotate(Over::Z, Fx::pi().div(fxi(5)))
        .scale(fxi(1), fxm(500_000), fxi(1))
        .transform();
    let s2 = fxi(2).sqrt().div(fxi(2));
    let point = Point::new(fxi(0), s2, s2.neg());
    let normal_vector = SphereShape(sphere).normal(&point);

    assert!(Vector3::new(fxi(0), fxm(970_143), fxm(-242_536)).approx_eq_low(&normal_vector));
}

#[test]
fn sphere_default_material() {
    let sphere = Sphere::default();
    assert_eq!(Material::default(), sphere.material);
}

#[test]
fn sphere_assigned_material() {
    let material = Material::default().ambient(fxi(1));
    let sphere = Sphere::default().apply_material(material);

    assert_eq!(fxi(1), sphere.material.ambient);
}
