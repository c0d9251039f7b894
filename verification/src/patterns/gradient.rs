//! Gradient: linear blend between two colors by the fractional part of `x`.

use crate::color::Color;
use crate::fx::{fx_add, fx_clip, fx_floor, fx_mul, fx_new, fx_sub, Fx, SCALE};
use crate::point::Point;
use vstd::prelude::*;

verus! {

#[derive(Clone, Copy, Debug, PartialEq, Eq, Structural)]
pub struct GradientPattern {
    pub color_from: Color,
    pub color_to: Color,
}

/// `color_from + (color_to - color_from) * (x - floor(x))`.
pub open spec fn gradient_at_spec(p: GradientPattern, point: Point) -> Color {
    let fraction = fx_sub(point.x@, fx_clip(fx_floor(point.x@) * SCALE));
    Color {
        r: fx_new(fx_add(p.color_from.r@, fx_mul(fx_sub(p.color_to.r@, p.color_from.r@), fraction))),
        g: fx_new(fx_add(p.color_from.g@, fx_mul(fx_sub(p.color_to.g@, p.color_from.g@), fraction))),
        b: fx_new(fx_add(p.color_from.b@, fx_mul(fx_sub(p.color_to.b@, p.color_from.b@), fraction))),
    }
}

impl GradientPattern {
    pub fn from(color_from: Color, color_to: Color) -> (r: GradientPattern)
        ensures
            r == (GradientPattern { color_from, color_to }),
    {
        GradientPattern { color_from, color_to }
    }

    pub fn gradient_at(&self, point: Point) -> (r: Color)
        ensures
            r == gradient_at_spec(*self, point),
    {
        let fraction = point.x.sub(Fx::from_int(point.x.floor()));
        let distance = self.color_to.sub(self.color_from);
        self.color_from.add(distance.scale(fraction))
    }
}

} // verus!
