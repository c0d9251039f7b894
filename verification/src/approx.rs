//! Approximate equality.
//!
//! Geometric results carry rounding from the fixed-point arithmetic, so tests
//! and a few geometric decisions compare within a tolerance: a tight one for
//! directly derived values and a loose one where error accumulates through
//! chains of matrix multiplications.

use crate::fx::{fx_abs, fx_clip, fx_sub, Fx};
use vstd::prelude::*;

verus! {

/// Tight tolerance, 10^-7, in raw units.
pub const EPSILON: i64 = 100;

/// Loose tolerance, 10^-4, in raw units.
pub const LOW_EPSILON: i64 = 100_000;

/// Two quantities in raw units differ by less than `eps`.
pub open spec fn fx_approx(a: int, b: int, eps: int) -> bool {
    fx_clip(fx_abs(fx_sub(a, b))) < eps
}

/// Comparison within a tolerance: `approx_eq` is the tight tolerance,
/// `approx_eq_low` the loose one.
pub trait ApproxEq {
    spec fn approx_spec(&self, other: &Self) -> bool;

    spec fn approx_low_spec(&self, other: &Self) -> bool;

    fn approx_eq(&self, other: &Self) -> (r: bool)
        ensures
            r == self.approx_spec(other),
    ;

    fn approx_eq_low(&self, other: &Self) -> (r: bool)
        ensures
            r == self.approx_low_spec(other),
    ;
}

impl ApproxEq for Fx {
    open spec fn approx_spec(&self, other: &Self) -> bool {
        fx_approx(self@, other@, EPSILON as int)
    }

    open spec fn approx_low_spec(&self, other: &Self) -> bool {
        fx_approx(self@, other@, LOW_EPSILON as int)
    }

    fn approx_eq(&self, other: &Self) -> (r: bool) {
        self.sub(*other).abs().raw < EPSILON
    }

    fn approx_eq_low(&self, other: &Self) -> (r: bool) {
        self.sub(*other).abs().raw < LOW_EPSILON
    }
}

} // verus!
