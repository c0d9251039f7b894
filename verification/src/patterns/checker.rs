//! Checkers: the color alternates with the parity of
//! `floor(x) + floor(y) + floor(z)`.

use crate::color::Color;
use crate::fx::{fx_even, fx_floor, is_even};
use crate::point::Point;
use vstd::prelude::*;

verus! {

#[derive(Clone, Copy, Debug, PartialEq, Eq, Structural)]
pub struct CheckerPattern {
    pub color_a: Color,
    pub color_b: Color,
}

/// Three-dimensional checkerboard with unit cells.
pub open spec fn checker_at_spec(p: CheckerPattern, point: Point) -> Color {
    if fx_even(fx_floor(point.x@) + fx_floor(point.y@) + fx_floor(point.z@)) {
        p.color_a
    } else {
        p.color_b
    }
}

impl CheckerPattern {
    pub fn from(color_a: Color, color_b: Color) -> (r: CheckerPattern)
        ensures
            r == (CheckerPattern { color_a, color_b }),
    {
        CheckerPattern { color_a, color_b }
    }

    pub fn checker_at(&self, point: &Point) -> (r: Color)
        ensures
            r == checker_at_spec(*self, *point),
    {
        let sum = point.x.floor() + point.y.floor() + point.z.floor();
        if is_even(sum) {
            self.color_a
        } else {
            self.color_b
        }
    }
}

} // verus!
