//! The render scheduling mode: one pass over the rows, or independent
//! horizontal bands. Both produce the same buffer; the band layout exists so
//! a surrounding program can hand the bands to parallel workers.

use vstd::prelude::*;

verus! {

#[derive(Clone, Copy, Debug, PartialEq, Eq, Structural)]
pub enum Rendering {
    Parallel,
    Sequential,
}

#[derive(Clone, Copy, Debug, PartialEq, Eq, Structural)]
pub struct Render {
    pub render_mode: Rendering,
}

impl Render {
    pub fn new() -> (r: Render)
        ensures
            r.render_mode == Rendering::Parallel,
    {
        Render { render_mode: Rendering::Parallel }
    }
}

impl Default for Render {
    fn default() -> (r: Render)
        ensures
            r.render_mode == Rendering::Parallel,
    {
        Render::new()
    }
}

} // verus!
