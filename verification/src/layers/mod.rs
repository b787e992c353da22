//! Layers: stateless descriptions of a transformation from a row of `M`
//! inputs to a row of `N` outputs. A layer owns no parameters; it is handed
//! its segment of a flat weight array and of a flat bias array with every
//! call, and says how long that segment is.

mod dense;
mod input;
mod pipe;

use crate::scalar::Scalar;
pub use dense::{dense_output, neuron, Dense};
pub use input::Input;
pub use pipe::Pipe;
use vstd::prelude::*;

verus! {

/// A transformation from `M` inputs to `N` outputs that is handed its
/// parameters with every call.
pub trait Layer<const M: usize, const N: usize, T: Scalar>: Sized {
    /// The layer's parameter count fits the machine's address space.
    spec fn wf(&self) -> bool;

    /// How many weights the layer takes, which is also how many biases.
    spec fn shape_spec(&self) -> nat;

    /// The output row for an input row and the layer's segments of the
    /// weights and biases.
    spec fn predict_spec(&self, weights: Seq<T>, biases: Seq<T>, input: Seq<T>) -> Seq<T>;

    /// Whether `weights` is a segment that the layer's initializers may
    /// generate.
    spec fn generates_weights(&self, weights: Seq<T>) -> bool;

    /// Whether `biases` is a segment that the layer's initializers may
    /// generate.
    spec fn generates_biases(&self, biases: Seq<T>) -> bool;

    fn shape(&self) -> (n: usize)
        requires
            self.wf(),
        ensures
            n == self.shape_spec(),
    ;

    fn input_shape(&self) -> (n: usize)
        ensures
            n == M,
    ;

    fn output_shape(&self) -> (n: usize)
        ensures
            n == N,
    ;

    fn predict(&self, weights: &[T], biases: &[T], input: &[T]) -> (out: Vec<T>)
        requires
            self.wf(),
            weights@.len() == self.shape_spec(),
            biases@.len() == self.shape_spec(),
            input@.len() == M,
        ensures
            out@.len() == N,
            out@ == self.predict_spec(weights@, biases@, input@),
    ;

    fn gen_weights(&mut self) -> (weights: Vec<T>)
        requires
            old(self).wf(),
        ensures
            *final(self) == *old(self),
            weights@.len() == old(self).shape_spec(),
            old(self).generates_weights(weights@),
    ;

    fn gen_biases(&mut self) -> (biases: Vec<T>)
        requires
            old(self).wf(),
        ensures
            *final(self) == *old(self),
            biases@.len() == old(self).shape_spec(),
            old(self).generates_biases(biases@),
    ;
}

} // verus!
