//! Point lights: a position and a color intensity.

use crate::color::Color;
use crate::fx::fx_new;
use crate::point::Point;
use vstd::prelude::*;

verus! {

#[derive(Clone, Copy, Debug, PartialEq, Eq, Structural)]
pub struct PointLight {
    pub intensity: Color,
    pub position: Point,
}

impl PointLight {
    pub fn new(intensity: Color, position: Point) -> (r: PointLight)
        ensures
            r == (PointLight { intensity, position }),
    {
        PointLight { intensity, position }
    }

    pub fn with_color(&mut self, color: Color)
        ensures
            final(self).intensity == color,
            final(self).position == old(self).position,
    {
        self.intensity = color;
    }

    pub fn with_position(&mut self, position: Point)
        ensures
            final(self).position == position,
            final(self).intensity == old(self).intensity,
    {
        self.position = position;
    }
}

impl Default for PointLight {
    fn default() -> (r: PointLight)
        ensures
            r == (PointLight {
                intensity: Color { r: fx_new(0), g: fx_new(0), b: fx_new(0) },
                position: Point { x: fx_new(0), y: fx_new(0), z: fx_new(0) },
            }),
    {
        PointLight { intensity: Color::black(), position: Point::zero() }
    }
}

} // verus!
