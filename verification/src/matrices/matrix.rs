//! The square-matrix interface shared by the 2x2, 3x3 and 4x4 matrices.
//! The contracts live on each type's inherent methods, which these trait
//! methods forward to.

use vstd::prelude::*;

verus! {

/// A square matrix: its dimensions, the multiplicative identity, and
/// transposition, which swaps the matrix in place and also returns it.
pub trait Matrix: Sized {
    fn rows(&self) -> usize;

    fn columns(&self) -> usize;

    fn identity() -> Self;

    fn transpose(&mut self) -> Self;
}

} // verus!
