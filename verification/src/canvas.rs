//! The framebuffer: a row-major pixel buffer and the clamped 8-bit
//! conversion. Writing the buffer to an image container is a concern of the
//! surrounding program, which only needs the width, the height and the bytes.

use crate::color::Color;
use crate::fx::{fx_new, Fx, SCALE};
use vstd::prelude::*;

verus! {

#[derive(Clone, Debug, PartialEq)]
pub struct Canvas {
    pub width: usize,
    pub height: usize,
    pub pixels: Vec<Color>,
}

/// The buffer holds exactly one pixel per grid cell.
pub open spec fn canvas_wf(c: Canvas) -> bool {
    c.pixels@.len() == c.width * c.height
}

/// Clamp a component into [0, 1], scale by 255 and truncate.
pub open spec fn component_to_byte(c: int) -> int {
    if c < 0 {
        0
    } else if c > SCALE {
        255
    } else {
        (c * 255) / (SCALE as int)
    }
}

impl Canvas {
    /// A canvas filled with one color.
    #[verifier::loop_isolation(false)]
    pub fn new(width: usize, height: usize, color: Color) -> (r: Canvas)
        requires
            width * height <= usize::MAX,
        ensures
            r.width == width,
            r.height == height,
            canvas_wf(r),
            forall|i: int| 0 <= i < r.pixels@.len() ==> r.pixels@[i] == color,
    {
        let total = width * height;
        let mut pixels: Vec<Color> = Vec::new();
        let mut i: usize = 0;
        while i < total
            invariant
                i <= total,
                pixels@.len() == i,
                forall|k: int| 0 <= k < i ==> pixels@[k] == color,
            decreases total - i,
        {
            pixels.push(color);
            i = i + 1;
        }
        Canvas { width, height, pixels }
    }

    /// The pixel at column `x` of row `y`.
    pub fn pixel_at(&self, x: usize, y: usize) -> (r: Color)
        requires
            canvas_wf(*self),
            x < self.width,
            y < self.height,
        ensures
            r == self.pixels@[y * self.width + x],
    {
        let n = self.pixels.len();
        proof {
            vstd::arithmetic::mul::lemma_mul_inequality(y + 1, self.height as int, self.width as int);
            assert((y + 1) * self.width == y * self.width + self.width) by (nonlinear_arith);
            assert(y * self.width + x < n);
        }
        self.pixels[y * self.width + x]
    }

    /// Overwrite the pixel at column `x` of row `y`.
    pub fn set_pixel(&mut self, x: usize, y: usize, color: Color)
        requires
            canvas_wf(*old(self)),
            x < old(self).width,
            y < old(self).height,
        ensures
            canvas_wf(*final(self)),
            final(self).width == old(self).width,
            final(self).height == old(self).height,
            final(self).pixels@ == old(self).pixels@.update(
                y * old(self).width + x,
                color,
            ),
    {
        let n = self.pixels.len();
        proof {
            vstd::arithmetic::mul::lemma_mul_inequality(y + 1, self.height as int, self.width as int);
            assert((y + 1) * self.width == y * self.width + self.width) by (nonlinear_arith);
            assert(y * self.width + x < n);
        }
        let idx = y * self.width + x;
        self.pixels.set(idx, color);
    }

    /// A borrow of the whole buffer.
    pub fn pixels(&self) -> (r: &Vec<Color>)
        ensures
            r@ == self.pixels@,
    {
        &self.pixels
    }

    /// One color as clamped 8-bit channels.
    pub fn convert_color(&self, color: &Color) -> (r: (u8, u8, u8))
        ensures
            r.0 == component_to_byte(color.r@),
            r.1 == component_to_byte(color.g@),
            r.2 == component_to_byte(color.b@),
    {
        (convert_component(color.r), convert_component(color.g), convert_component(color.b))
    }

    /// The whole buffer as packed 8-bit RGB, row major.
    #[verifier::loop_isolation(false)]
    pub fn rgb_bytes(&self) -> (r: Vec<u8>)
        requires
            self.pixels@.len() * 3 <= usize::MAX,
        ensures
            r@.len() == self.pixels@.len() * 3,
            forall|i: int|
                0 <= i < self.pixels@.len() ==> {
                    &&& r@[3 * i] == component_to_byte(self.pixels@[i].r@)
                    &&& r@[3 * i + 1] == component_to_byte(self.pixels@[i].g@)
                    &&& r@[3 * i + 2] == component_to_byte(self.pixels@[i].b@)
                },
    {
        let mut bytes: Vec<u8> = Vec::new();
        let mut i: usize = 0;
        while i < self.pixels.len()
            invariant
                i <= self.pixels@.len(),
                bytes@.len() == 3 * i,
                forall|k: int|
                    0 <= k < i ==> {
                        &&& bytes@[3 * k] == component_to_byte(self.pixels@[k].r@)
                        &&& bytes@[3 * k + 1] == component_to_byte(self.pixels@[k].g@)
                        &&& bytes@[3 * k + 2] == component_to_byte(self.pixels@[k].b@)
                    },
            decreases self.pixels@.len() - i,
        {
            let (cr, cg, cb) = self.convert_color(&self.pixels[i]);
            bytes.push(cr);
            bytes.push(cg);
            bytes.push(cb);
            i = i + 1;
        }
        bytes
    }
}

/// Clamp one component into [0, 1] and quantize it to a byte.
fn convert_component(component: Fx) -> (r: u8)
    ensures
        r == component_to_byte(component@),
{
    if component.raw < 0 {
        0
    } else if component.raw > SCALE {
        255
    } else {
        let scaled: i64 = component.raw * 255;
        let byte: i64 = scaled / SCALE;
        proof {
            vstd::arithmetic::div_mod::lemma_div_pos_is_pos(scaled as int, SCALE as int);
            vstd::arithmetic::div_mod::lemma_div_is_ordered(
                scaled as int,
                (SCALE as int) * 255,
                SCALE as int,
            );
            vstd::arithmetic::div_mod::lemma_div_multiples_vanish(255, SCALE as int);
        }
        byte as u8
    }
}

} // verus!
