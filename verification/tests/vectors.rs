use ray_tracer::approx::ApproxEq;
use ray_tracer::fx::Fx;
use ray_tracer::vector::Vector3;

fn fxi(v: i64) -> Fx {
    Fx::from_int(v)
}

fn fxm(v: i64) -> Fx {
    Fx::from_micro(v)
}

fn v(x: i64, y: i64, z: i64) -> Vector3 {
    Vector3::new(fxm(x), fxm(y), fxm(z))
}

#[test]
fn vector_creation() {
    let vector_default = Vector3::default();
    let vector_new = Vector3::new(fxi(0), fxi(0), fxi(0));

    assert_eq!(vector_new, vector_default);
    assert_eq!(vector_new.z, vector_default.z);
}

#[test]
fn vector_addition() {
    let vector_a = v(0, 1_000_000, 2_000_000);
    let vector_b = v(100_000, 1_100_000, 2_200_000);

    assert!(vector_a.add(vector_b).approx_eq(&v(100_000, 2_100_000, 4_200_000)));
    assert!(vector_b.add(vector_a).approx_eq(&v(100_000, 2_100_000, 4_200_000)));
    assert!(vector_a.add(vector_a).approx_eq(&v(0, 2_000_000, 4_000_000)));
}

#[test]
fn vector_subtraction() {
    let vector_a = v(-2_500_000, 1_300_000, 0);
    let vector_b = v(400_000, 1_300_000, 2_200_000);

    assert!(vector_a.sub(vector_b).approx_eq(&v(-2_900_000, 0, -2_200_000)));
    assert!(vector_b.sub(vector_a).approx_eq(&v(2_900_000, 0, 2_200_000)));
    assert!(vector_a.sub(vector_a).approx_eq(&v(0, 0, 0)));
}

#[test]
fn vector_multiplication() {
    let vector_a = v(1_000_000, 2_000_000, 0);
    let vector_b = v(1_500_000, 4_000_000, 5_000_000);

    assert!(vector_a.mul(vector_b).approx_eq(&v(1_500_000, 8_000_000, 0)));
    assert!(vector_b.mul(vector_a).approx_eq(&v(1_500_000, 8_000_000, 0)));
    assert!(vector_a.mul(vector_a).approx_eq(&v(1_000_000, 4_000_000, 0)));
}

#[test]
fn vector_multiplication_scalar() {
    let vector_a = v(1_000_000, 2_000_000, 3_000_000);

    assert!(vector_a.mul_scalar(fxi(2)).approx_eq(&v(2_000_000, 4_000_000, 6_000_000)));
}

#[test]
fn vector_division_scalar() {
    let vector_a = v(2_000_000, 2_000_000, 4_000_000);

    assert!(vector_a.div_scalar(fxi(2)).approx_eq(&v(1_000_000, 1_000_000, 2_000_000)));
}

#[test]
fn vector_magnitude() {
    let vector_a = v(2_000_000, 2_000_000, 4_000_000);

    let expected_magnitude = fxi(24).sqrt();
    assert!(expected_magnitude.approx_eq(&vector_a.magnitude()));
}

#[test]
fn normalize_vector() {
    let vector_a = v(4_000_000, 0, 0);

    let expected_unit_vector = v(1_000_000, 0, 0);
    assert!(expected_unit_vector.approx_eq(&vector_a.normalize()));
}

#[test]
fn normalize_vector_approx() {
    let vector_a = v(1_000_000, 2_000_000, 3_000_000);

    let expected_unit_vector = v(267_261, 534_522, 801_784);
    assert!(expected_unit_vector.approx_eq_low(&vector_a.normalize()));
}

#[test]
fn vector_negative() {
    let vector_a = v(2_000_000, 2_000_000, 4_000_000);

    assert!(vector_a.negate().approx_eq(&v(-2_000_000, -2_000_000, -4_000_000)));
}

#[test]
fn vector_cross_production() {
    let vector_a = v(1_000_000, 3_000_000, 4_000_000);
    let vector_b = v(2_000_000, 7_000_000, -5_000_000);

    let expected_vector = v(-43_000_000, 13_000_000, 1_000_000);
    assert!(expected_vector.approx_eq(&vector_a.cross(&vector_b)));
}

#[test]
fn vector_dot_production() {
    let vector_a = v(2_000_000, 4_000_000, 6_000_000);
    let vector_b = v(1_000_000, 3_000_000, 5_000_000);

    let expected_dot = fxi(44);
    assert!(expected_dot.approx_eq(&vector_a.dot(&vector_b)));
}
