//! Quality presets a command line can select: they only choose a sampling
//! rate and a recursion depth before a render starts. Reading the actual
//! arguments belongs to the surrounding program.

use vstd::prelude::*;

verus! {

#[derive(Clone, Copy, Debug, PartialEq, Eq, Structural)]
pub enum Preset {
    Fast { samples_per_pixel: i32, depth: u32 },
    Slow { samples_per_pixel: i32, depth: u32 },
}

} // verus!
