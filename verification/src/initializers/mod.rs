//! Initializers: what fills a new layer's weights and biases.

mod ones;
mod random_distr;
mod zeros;

use crate::scalar::Scalar;
pub use ones::Ones;
pub use random_distr::{Distribution, RandomDistr, Uniform};
use vstd::prelude::*;
pub use zeros::Zeros;

verus! {

/// A strategy for filling an array of a given length.
pub trait Initializer<T: Scalar> {
    /// Whether the strategy may produce `x` as an entry.
    spec fn admits(&self, x: T) -> bool;

    /// `len` entries, each one that the strategy admits.
    fn gen(&self, len: usize) -> (r: Vec<T>)
        ensures
            r@.len() == len,
            forall|i: int| 0 <= i < len ==> self.admits(#[trigger] r@[i]),
    ;
}

} // verus!
