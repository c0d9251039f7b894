//! Rings: the color alternates with the parity of `floor(sqrt(x^2 + z^2))`.

use crate::color::Color;
use crate::fx::{fx_add, fx_even, fx_floor, fx_mul, fx_sqrt, is_even};
use crate::point::Point;
use vstd::prelude::*;

verus! {

#[derive(Clone, Copy, Debug, PartialEq, Eq, Structural)]
pub struct RingPattern {
    pub color_a: Color,
    pub color_b: Color,
}

/// Concentric rings about the y axis, one color per parity of the integer
/// distance from it.
pub open spec fn ring_at_spec(p: RingPattern, point: Point) -> Color {
    let distance = fx_sqrt(fx_add(fx_mul(point.x@, point.x@), fx_mul(point.z@, point.z@)));
    if fx_even(fx_floor(distance)) {
        p.color_a
    } else {
        p.color_b
    }
}

impl RingPattern {
    pub fn from(color_a: Color, color_b: Color) -> (r: RingPattern)
        ensures
            r == (RingPattern { color_a, color_b }),
    {
        RingPattern { color_a, color_b }
    }

    pub fn ring_at(&self, point: Point) -> (r: Color)
        ensures
            r == ring_at_spec(*self, point),
    {
        let distance = point.x.mul(point.x).add(point.z.mul(point.z)).sqrt();
        if is_even(distance.floor()) {
            self.color_a
        } else {
            self.color_b
        }
    }
}

} // verus!
