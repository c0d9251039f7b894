use ray_tracer::approx::ApproxEq;
use ray_tracer::color::Color;
use ray_tracer::fx::Fx;

fn fxi(v: i64) -> Fx {
    Fx::from_int(v)
}

fn fxm(v: i64) -> Fx {
    Fx::from_micro(v)
}

#[test]
fn color_creation() {
    let df_color = Color::default();
    let custom_color = Color::new(fxm(900_000), fxm(600_000), fxm(750_000));

    assert_eq!(df_color.g, fxi(0));
    assert_eq!(custom_color.b, fxm(750_000));
}

#[test]
fn color_addition() {
    let color_a = Color::new(fxm(100_000), fxm(400_000), fxm(200_000));
    let color_b = Color::new(fxm(100_000), fxm(100_000), fxm(200_000));

    let color_addition = color_a.add(color_b);
    assert!(color_addition.approx_eq(&Color::new(fxm(200_000), fxm(500_000), fxm(400_000))));

    let color_addition = color_b.add(color_a);
    assert!(color_addition.approx_eq(&Color::new(fxm(200_000), fxm(500_000), fxm(400_000))));

    let color_addition = color_a.add(color_a);
    assert!(color_addition.approx_eq(&Color::new(fxm(200_000), fxm(800_000), fxm(400_000))));
}

#[test]
fn color_subtraction() {
    let color_a = Color::new(fxm(100_000), fxm(400_000), fxm(200_000));
    let color_b = Color::new(fxm(100_000), fxm(100_000), fxm(200_000));

    let expected_color = Color::new(fxi(0), fxm(300_000), fxi(0));
    assert!(expected_color.approx_eq(&color_a.sub(color_b)));

    let expected_color = Color::new(fxi(0), fxm(-300_000), fxi(0));
    assert!(expected_color.approx_eq(&color_b.sub(color_a)));

    let expected_color = Color::new(fxi(0), fxi(0), fxi(0));
    assert!(expected_color.approx_eq(&color_a.sub(color_a)));
}

#[test]
fn color_multiplication() {
    let color_a = Color::new(fxm(300_000), fxi(0), fxi(1));
    let color_b = Color::new(fxm(200_000), fxi(0), fxi(1));

    let expected_color = Color::new(fxm(60_000), fxi(0), fxi(1));
    assert!(expected_color.approx_eq(&color_a.mul(color_b)));
}

#[test]
fn color_multiplication_scalar() {
    let color_a = Color::new(fxm(350_000), fxi(0), fxm(450_000));

    let expected_color = Color::new(fxm(700_000), fxi(0), fxm(900_000));
    assert!(expected_color.approx_eq(&color_a.scale(fxi(2))));
}

#[test]
fn color_division() {
    let color_a = Color::new(fxm(100_000), fxm(100_000), fxm(100_000));
    let color_b = Color::new(fxm(100_000), fxm(100_000), fxm(100_000));

    let expected_color = Color::new(fxi(1), fxi(1), fxi(1));
    assert!(expected_color.approx_eq(&color_a.div(color_b)));
}

#[test]
fn color_division_scalar() {
    let color_a = Color::new(fxi(1), fxi(1), fxi(1));

    let expected_color = Color::new(fxm(500_000), fxm(500_000), fxm(500_000));
    assert!(expected_color.approx_eq(&color_a.div_scalar(fxi(2))));
}
