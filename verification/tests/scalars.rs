use ray_tracer::approx::ApproxEq;
use ray_tracer::fx::{Fx, SCALE};

fn fxi(v: i64) -> Fx {
    Fx::from_int(v)
}

fn fxm(v: i64) -> Fx {
    Fx::from_micro(v)
}

#[test]
fn scalar_construction_and_arithmetic() {
    assert_eq!(fxi(1).raw, SCALE);
    assert_eq!(fxm(1_000_000), fxi(1));
    assert_eq!(fxi(2).add(fxi(3)), fxi(5));
    assert_eq!(fxi(2).sub(fxi(3)), fxi(-1));
    assert_eq!(fxi(6).mul(fxm(500_000)), fxi(3));
    assert_eq!(fxi(7).div(fxi(2)), fxm(3_500_000));
    assert_eq!(fxi(-7).abs(), fxi(7));
    assert_eq!(fxi(-7).neg(), fxi(7));
}

#[test]
fn scalar_saturating_division_by_zero() {
    assert_eq!(fxi(1).div(fxi(0)).raw, i64::MAX);
    assert_eq!(fxi(-1).div(fxi(0)).raw, i64::MIN);
    assert_eq!(fxi(0).div(fxi(0)).raw, 0);
}

#[test]
fn scalar_square_root() {
    assert_eq!(fxi(4).sqrt(), fxi(2));
    assert_eq!(fxi(16).sqrt(), fxi(4));
    assert_eq!(fxi(-4).sqrt(), fxi(0));
    assert!(fxi(2).sqrt().approx_eq(&Fx::from_raw(1_414_213_562)));
}

#[test]
fn scalar_floor_and_parity() {
    assert_eq!(fxm(1_700_000).floor(), 1);
    assert_eq!(fxm(-1_700_000).floor(), -2);
    assert_eq!(fxm(-100_000).floor(), -1);
    assert_eq!(fxi(3).floor(), 3);
}

#[test]
fn scalar_power() {
    assert_eq!(fxi(2).powi(10), fxi(1024));
    assert_eq!(fxi(5).powi(0), fxi(1));
    assert!(fxm(500_000).powi(3).approx_eq(&fxm(125_000)));
}

#[test]
fn scalar_trigonometry() {
    let pi = Fx::pi();
    let half_sqrt2 = fxi(2).sqrt().div(fxi(2));

    assert!(fxi(0).sin().approx_eq(&fxi(0)));
    assert!(fxi(0).cos().approx_eq(&fxi(1)));
    assert!(pi.div(fxi(2)).sin().approx_eq(&fxi(1)));
    assert!(pi.div(fxi(2)).cos().approx_eq(&fxi(0)));
    assert!(pi.div(fxi(4)).sin().approx_eq(&half_sqrt2));
    assert!(pi.div(fxi(4)).cos().approx_eq(&half_sqrt2));
    assert!(pi.sin().approx_eq(&fxi(0)));
    assert!(pi.cos().approx_eq(&fxi(-1)));
    assert!(pi.div(fxi(4)).tan().approx_eq(&fxi(1)));
    assert!(pi.neg().div(fxi(4)).sin().approx_eq(&half_sqrt2.neg()));
}
