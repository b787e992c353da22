use super::Layer;
use crate::fixed::Fixed;
use crate::scalar::Scalar;
use core::marker::PhantomData;
use vstd::prelude::*;

verus! {

/// The identity layer: `M` inputs handed on unchanged, with no parameters. It
/// is the root that every chain starts from.
pub struct Input<const M: usize, T = Fixed> {
    _phantom: PhantomData<T>,
}

impl<const M: usize, T> Input<M, T> {
    pub fn new() -> Self {
        Self { _phantom: PhantomData }
    }
}

impl<const M: usize, T: Scalar> Layer<M, M, T> for Input<M, T> {
    open spec fn wf(&self) -> bool {
        true
    }

    open spec fn shape_spec(&self) -> nat {
        0
    }

    open spec fn predict_spec(&self, weights: Seq<T>, biases: Seq<T>, input: Seq<T>) -> Seq<T> {
        input
    }

    open spec fn generates_weights(&self, weights: Seq<T>) -> bool {
        weights.len() == 0
    }

    open spec fn generates_biases(&self, biases: Seq<T>) -> bool {
        biases.len() == 0
    }

    fn shape(&self) -> (n: usize) {
        0
    }

    fn input_shape(&self) -> (n: usize) {
        M
    }

    fn output_shape(&self) -> (n: usize) {
        M
    }

    fn predict(&self, weights: &[T], biases: &[T], input: &[T]) -> (out: Vec<T>) {
        vstd::slice::slice_to_vec(input)
    }

    fn gen_weights(&mut self) -> (weights: Vec<T>) {
        Vec::new()
    }

    fn gen_biases(&mut self) -> (biases: Vec<T>) {
        Vec::new()
    }
}

} // verus!
