use ray_tracer::approx::ApproxEq;
use ray_tracer::fx::Fx;
use ray_tracer::point::Point;

fn fxi(v: i64) -> Fx {
    Fx::from_int(v)
}

fn fxm(v: i64) -> Fx {
    Fx::from_micro(v)
}

fn p(x: i64, y: i64, z: i64) -> Point {
    Point::new(fxm(x), fxm(y), fxm(z))
}

#[test]
fn point_creation() {
    let point_default = Point::default();
    let point_new = Point::new(fxi(0), fxi(0), fxi(0));

    assert_eq!(point_new, point_default);
    assert_eq!(point_new.z, point_default.z);
}

#[test]
fn point_addition() {
    let point_a = p(0, 1_000_000, 2_000_000);
    let point_b = p(100_000, 1_100_000, 2_200_000);

    assert!(point_a.add(point_b).approx_eq(&p(100_000, 2_100_000, 4_200_000)));
    assert!(point_b.add(point_a).approx_eq(&p(100_000, 2_100_000, 4_200_000)));
    assert!(point_a.add(point_a).approx_eq(&p(0, 2_000_000, 4_000_000)));
}

#[test]
fn point_subtraction() {
    let point_a = p(-2_500_000, 1_300_000, 0);
    let point_b = p(400_000, 1_300_000, 2_200_000);

    assert!(point_a.sub(point_b).approx_eq(&p(-2_900_000, 0, -2_200_000)));
    assert!(point_b.sub(point_a).approx_eq(&p(2_900_000, 0, 2_200_000)));
    assert!(point_a.sub(point_a).approx_eq(&p(0, 0, 0)));
}

#[test]
fn point_multiplication() {
    let point_a = p(1_000_000, 2_000_000, 0);
    let point_b = p(1_500_000, 4_000_000, 5_000_000);

    assert!(point_a.mul(point_b).approx_eq(&p(1_500_000, 8_000_000, 0)));
    assert!(point_b.mul(point_a).approx_eq(&p(1_500_000, 8_000_000, 0)));
    assert!(point_a.mul(point_a).approx_eq(&p(1_000_000, 4_000_000, 0)));
}

#[test]
fn point_multiplication_scalar() {
    let point_a = p(1_000_000, 2_000_000, 3_000_000);

    assert!(point_a.mul_scalar(fxi(2)).approx_eq(&p(2_000_000, 4_000_000, 6_000_000)));
}

#[test]
fn point_division_scalar() {
    let point_a = p(2_000_000, 2_000_000, 4_000_000);

    assert!(point_a.div_scalar(fxi(2)).approx_eq(&p(1_000_000, 1_000_000, 2_000_000)));
}

#[test]
fn point_negative() {
    let point_a = p(2_000_000, 2_000_000, 4_000_000);

    assert!(point_a.negate().approx_eq(&p(-2_000_000, -2_000_000, -4_000_000)));
}
