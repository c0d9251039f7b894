use ray_tracer::approx::ApproxEq;
use ray_tracer::camera::Camera;
use ray_tracer::canvas::Canvas;
use ray_tracer::color::Color;
use ray_tracer::fx::Fx;
use ray_tracer::point::Point;
use ray_tracer::transformations::{Over, Transformable};
use ray_tracer::vector::Vector3;

fn fxi(v: i64) -> Fx {
    Fx::from_int(v)
}

fn fxm(v: i64) -> Fx {
    Fx::from_micro(v)
}

fn half_pi() -> Fx {
    Fx::pi().div(fxi(2))
}

#[test]
fn camera_creation() {
    let camera = Camera::new(160, 120, half_pi());

    assert_eq!(camera.horizontal_size, 160);
    assert_eq!(camera.vertical_size, 120);
    assert!(camera.pixel_size.approx_eq(&fxm(12_500)));
    assert!(camera.half_width.approx_eq(&fxi(1)));
    assert!(camera.half_height.approx_eq(&fxm(750_000)));
}

#[test]
fn camera_ray_trough_center() {
    let camera = Camera::new(201, 101, half_pi());

    let ray = camera.ray_for_pixel(fxi(100), fxi(50));
    assert!(Point::new(fxi(0), fxi(0), fxi(0)).approx_eq_low(&ray.origin));
    assert!(Vector3::new(fxi(0), fxi(0), fxi(-1)).approx_eq_low(&ray.direction));
}

#[test]
fn camera_ray_trough_corner() {
    let camera = Camera::new(201, 101, half_pi());

    let ray = camera.ray_for_pixel(fxi(0), fxi(0));
    assert!(Point::new(fxi(0), fxi(0), fxi(0)).approx_eq_low(&ray.origin));
    assert!(Vector3::new(fxm(665_190), fxm(332_590), fxm(-668_510)).approx_eq_low(&ray.direction));
}

#[test]
fn camera_ray_when_transformed() {
    let camera = Camera::new(201, 101, half_pi())
        .translate(fxi(0), fxi(-2), fxi(5))
        .rotate(Over::Y, Fx::pi().div(fxi(4)))
        .transform();

    let ray = camera.ray_for_pixel(fxi(100), fxi(50));
    let s2 = fxi(2).sqrt().div(fxi(2));
    assert!(Point::new(fxi(0), fxi(2), fxi(-5)).approx_eq_low(&ray.origin));
    assert!(Vector3::new(s2, fxi(0), s2.neg()).approx_eq_low(&ray.direction));
}

#[test]
fn canvas_creation() {
    let canvas = Canvas::new(5, 5, Color::black());

    assert_eq!(canvas.pixel_at(1, 1), Color::black());
}

#[test]
fn set_pixel() {
    let mut canvas = Canvas::new(10, 20, Color::black());
    canvas.set_pixel(3, 2, Color::red());

    assert_eq!(canvas.pixel_at(3, 2), Color::red());
    assert_eq!(canvas.pixel_at(1, 0), Color::black());
}

#[test]
fn canvas_rgb_bytes_clamp_and_scale() {
    let mut canvas = Canvas::new(2, 1, Color::black());
    canvas.set_pixel(0, 0, Color::new(fxm(1_500_000), fxm(500_000), fxm(-300_000)));
    canvas.set_pixel(1, 0, Color::white());

    let bytes = canvas.rgb_bytes();
    assert_eq!(bytes, vec![255, 127, 0, 255, 255, 255]);
}
