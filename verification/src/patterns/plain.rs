//! The constant-color pattern.

use crate::color::Color;
use crate::fx::{fx_new, SCALE};
use crate::point::Point;
use vstd::prelude::*;

verus! {

#[derive(Clone, Copy, Debug, PartialEq, Eq, Structural)]
pub struct PlainPattern {
    pub color: Color,
}

impl PlainPattern {
    pub fn from(color: Color) -> (r: PlainPattern)
        ensures
            r == (PlainPattern { color }),
    {
        PlainPattern { color }
    }

    /// The same color at every point.
    pub fn plain_at(&self, _point: Point) -> (r: Color)
        ensures
            r == self.color,
    {
        self.color
    }
}

impl Default for PlainPattern {
    fn default() -> (r: PlainPattern)
        ensures
            r == (PlainPattern {
                color: Color {
                    r: fx_new(SCALE as int),
                    g: fx_new(SCALE as int),
                    b: fx_new(SCALE as int),
                },
            }),
    {
        PlainPattern { color: Color::white() }
    }
}

} // verus!
