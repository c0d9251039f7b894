//! Stripes: the color alternates with the parity of `floor(x)`.

use crate::color::Color;
use crate::fx::{fx_even, fx_floor, is_even};
use crate::point::Point;
use vstd::prelude::*;

verus! {

#[derive(Clone, Copy, Debug, PartialEq, Eq, Structural)]
pub struct StripePattern {
    pub color_a: Color,
    pub color_b: Color,
}

/// `color_a` on even-floored x, `color_b` on odd.
pub open spec fn stripe_at_spec(p: StripePattern, point: Point) -> Color {
    if fx_even(fx_floor(point.x@)) {
        p.color_a
    } else {
        p.color_b
    }
}

impl StripePattern {
    pub fn from(color_a: Color, color_b: Color) -> (r: StripePattern)
        ensures
            r == (StripePattern { color_a, color_b }),
    {
        StripePattern { color_a, color_b }
    }

    pub fn stripe_at(&self, point: Point) -> (r: Color)
        ensures
            r == stripe_at_spec(*self, point),
    {
        if is_even(point.x.floor()) {
            self.color_a
        } else {
            self.color_b
        }
    }
}

} // verus!
