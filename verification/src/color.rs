//! Colors: red, green and blue intensities, unclamped until the final 8-bit
//! quantization in the canvas.

use crate::approx::{fx_approx, ApproxEq, EPSILON, LOW_EPSILON};
use crate::fx::{fx_add, fx_div, fx_mul, fx_new, fx_sub, Fx};
use vstd::prelude::*;

verus! {

#[derive(Clone, Copy, Debug, PartialEq, Eq, Structural)]
pub struct Color {
    pub r: Fx,
    pub g: Fx,
    pub b: Fx,
}


/// Componentwise sum.
pub open spec fn color_add(a: Color, b: Color) -> Color {
    Color {
        r: fx_new(fx_add(a.r@, b.r@)),
        g: fx_new(fx_add(a.g@, b.g@)),
        b: fx_new(fx_add(a.b@, b.b@)),
    }
}

/// Componentwise product (Hadamard).
pub open spec fn color_mul(a: Color, b: Color) -> Color {
    Color {
        r: fx_new(fx_mul(a.r@, b.r@)),
        g: fx_new(fx_mul(a.g@, b.g@)),
        b: fx_new(fx_mul(a.b@, b.b@)),
    }
}

/// The color scaled by `k` raw units.
pub open spec fn color_scale(a: Color, k: int) -> Color {
    Color {
        r: fx_new(fx_mul(a.r@, k)),
        g: fx_new(fx_mul(a.g@, k)),
        b: fx_new(fx_mul(a.b@, k)),
    }
}

impl Color {
    pub fn new(r: Fx, g: Fx, b: Fx) -> (c: Color)
        ensures
            c == (Color { r, g, b }),
    {
        Color { r, g, b }
    }

    pub fn black() -> (c: Color)
        ensures
            c == (Color { r: fx_new(0), g: fx_new(0), b: fx_new(0) }),
    {
        Color { r: Fx::zero(), g: Fx::zero(), b: Fx::zero() }
    }

    pub fn white() -> (c: Color)
        ensures
            c == (Color {
                r: fx_new(crate::fx::SCALE as int),
                g: fx_new(crate::fx::SCALE as int),
                b: fx_new(crate::fx::SCALE as int),
            }),
    {
        Color { r: Fx::one(), g: Fx::one(), b: Fx::one() }
    }

    pub fn red() -> (c: Color)
        ensures
            c == (Color { r: fx_new(crate::fx::SCALE as int), g: fx_new(0), b: fx_new(0) }),
    {
        Color { r: Fx::one(), g: Fx::zero(), b: Fx::zero() }
    }
}

impl Default for Color {
    fn default() -> (c: Color)
        ensures
            c == (Color { r: fx_new(0), g: fx_new(0), b: fx_new(0) }),
    {
        Color { r: Fx::zero(), g: Fx::zero(), b: Fx::zero() }
    }
}

impl ApproxEq for Color {
    open spec fn approx_spec(&self, other: &Self) -> bool {
        fx_approx(self.r@, other.r@, EPSILON as int) && fx_approx(self.g@, other.g@, EPSILON as int)
            && fx_approx(self.b@, other.b@, EPSILON as int)
    }

    open spec fn approx_low_spec(&self, other: &Self) -> bool {
        fx_approx(self.r@, other.r@, LOW_EPSILON as int) && fx_approx(
            self.g@,
            other.g@,
            LOW_EPSILON as int,
        ) && fx_approx(self.b@, other.b@, LOW_EPSILON as int)
    }

    fn approx_eq(&self, other: &Self) -> (res: bool) {
        self.r.approx_eq(&other.r) && self.g.approx_eq(&other.g) && self.b.approx_eq(&other.b)
    }

    fn approx_eq_low(&self, other: &Self) -> (res: bool) {
        self.r.approx_eq_low(&other.r) && self.g.approx_eq_low(&other.g) && self.b.approx_eq_low(
            &other.b,
        )
    }
}

impl Color {
    /// Componentwise sum.
    pub fn add(self, other: Color) -> (r: Color)
        ensures
            r == color_add(self, other),
    {
        Color { r: self.r.add(other.r), g: self.g.add(other.g), b: self.b.add(other.b) }
    }

    /// Componentwise difference.
    pub fn sub(self, other: Color) -> (r: Color)
        ensures
            r == (Color {
                r: fx_new(fx_sub(self.r@, other.r@)),
                g: fx_new(fx_sub(self.g@, other.g@)),
                b: fx_new(fx_sub(self.b@, other.b@)),
            }),
    {
        Color { r: self.r.sub(other.r), g: self.g.sub(other.g), b: self.b.sub(other.b) }
    }

    /// Componentwise (Hadamard) product.
    pub fn mul(self, other: Color) -> (r: Color)
        ensures
            r == color_mul(self, other),
    {
        Color { r: self.r.mul(other.r), g: self.g.mul(other.g), b: self.b.mul(other.b) }
    }

    /// The color scaled by a scalar.
    pub fn scale(self, k: Fx) -> (r: Color)
        ensures
            r == color_scale(self, k@),
    {
        Color { r: self.r.mul(k), g: self.g.mul(k), b: self.b.mul(k) }
    }

    /// Componentwise quotient.
    pub fn div(self, other: Color) -> (r: Color)
        ensures
            r == (Color {
                r: fx_new(fx_div(self.r@, other.r@)),
                g: fx_new(fx_div(self.g@, other.g@)),
                b: fx_new(fx_div(self.b@, other.b@)),
            }),
    {
        Color { r: self.r.div(other.r), g: self.g.div(other.g), b: self.b.div(other.b) }
    }

    /// The color divided by a scalar.
    pub fn div_scalar(self, k: Fx) -> (r: Color)
        ensures
            r == (Color {
                r: fx_new(fx_div(self.r@, k@)),
                g: fx_new(fx_div(self.g@, k@)),
                b: fx_new(fx_div(self.b@, k@)),
            }),
    {
        Color { r: self.r.div(k), g: self.g.div(k), b: self.b.div(k) }
    }
}

} // verus!
