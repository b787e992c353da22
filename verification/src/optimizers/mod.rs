//! Optimizers: what turns the trace of one forward pass and the error signal
//! of the loss into new parameters.

mod sgd;

use crate::activations::{derived, Activation};
use crate::matrix::{grid, Matrix};
use crate::scalar::Scalar;
pub use sgd::{
    bias_gradient, delta_at, descended_biases, descended_weights, weight_gradient, SGD,
};
use vstd::prelude::*;

verus! {

/// The views of the matrices held in `ms`.
pub open spec fn views<T>(ms: Seq<Matrix<T>>) -> Seq<Seq<Seq<T>>> {
    Seq::new(ms.len(), |i: int| ms[i]@)
}

/// The derivative of `act` at the pre-activations of every layer.
pub open spec fn slopes_of<T: Scalar, A: Activation<T>>(
    act: A,
    zs: Seq<Seq<Seq<T>>>,
) -> Seq<Seq<Seq<T>>> {
    Seq::new(zs.len(), |i: int| derived(act, zs[i]))
}

/// Whether the trace of a forward pass fits the parameters it was made with:
/// one pre-activation per layer and one activation more, starting with the
/// input batch; a batch of at least one row; every matrix of the shape that
/// its layer asks for, each layer as wide as the next one is tall; and one
/// entry of the error signal for each output column.
pub open spec fn trace_fits<T>(
    weights: Seq<Matrix<T>>,
    biases: Seq<Vec<T>>,
    activations: Seq<Matrix<T>>,
    zs: Seq<Matrix<T>>,
    error: Seq<T>,
) -> bool {
    &&& biases.len() == weights.len()
    &&& zs.len() == weights.len()
    &&& activations.len() == weights.len() + 1
    &&& activations[0]@.len() > 0
    &&& weights.len() > 0 ==> error.len() == biases.last()@.len()
    &&& forall|i: int|
        0 <= i < weights.len() ==> {
            &&& (#[trigger] weights[i]).wf()
            &&& weights[i].width() == biases[i]@.len()
        }
    &&& forall|i: int|
        0 <= i < weights.len() ==> {
            &&& (#[trigger] activations[i]).wf()
            &&& activations[i].width() == weights[i]@.len()
            &&& activations[i]@.len() == activations[0]@.len()
        }
    &&& forall|i: int|
        0 <= i < weights.len() ==> {
            &&& (#[trigger] zs[i]).wf()
            &&& zs[i].width() == weights[i].width()
            &&& zs[i]@.len() == activations[0]@.len()
        }
    &&& forall|i: int|
        0 <= i < weights.len() - 1 ==> (#[trigger] weights[i]).width() == weights[i + 1]@.len()
}

/// Whether `after` holds matrices and vectors of the shapes of `before`.
pub open spec fn shapes_kept<T>(
    before_weights: Seq<Matrix<T>>,
    before_biases: Seq<Vec<T>>,
    after_weights: Seq<Matrix<T>>,
    after_biases: Seq<Vec<T>>,
) -> bool {
    &&& after_weights.len() == before_weights.len()
    &&& after_biases.len() == before_biases.len()
    &&& forall|i: int|
        0 <= i < after_weights.len() ==> {
            &&& (#[trigger] after_weights[i]).wf()
            &&& after_weights[i].width() == before_weights[i].width()
            &&& after_weights[i]@.len() == before_weights[i]@.len()
        }
    &&& forall|i: int|
        0 <= i < after_biases.len() ==> (#[trigger] after_biases[i])@.len()
            == before_biases[i]@.len()
}

/// A rule for updating the parameters of every layer from one batch.
pub trait Optimizer<T: Scalar> {
    /// The weights after one step, from the parameters before it, the
    /// activations that came into each layer, the derivative of the
    /// activation at each layer's pre-activations, and the error signal.
    spec fn stepped_weights(
        &self,
        weights: Seq<Seq<Seq<T>>>,
        biases: Seq<Seq<T>>,
        activations: Seq<Seq<Seq<T>>>,
        slopes: Seq<Seq<Seq<T>>>,
        error: Seq<T>,
    ) -> Seq<Seq<Seq<T>>>;

    /// The biases after one step.
    spec fn stepped_biases(
        &self,
        weights: Seq<Seq<Seq<T>>>,
        biases: Seq<Seq<T>>,
        activations: Seq<Seq<Seq<T>>>,
        slopes: Seq<Seq<Seq<T>>>,
        error: Seq<T>,
    ) -> Seq<Seq<T>>;

    /// Takes one step: replaces the parameters of every layer, keeping their
    /// shapes.
    fn minimize<A: Activation<T>>(
        &self,
        weights: &mut Vec<Matrix<T>>,
        biases: &mut Vec<Vec<T>>,
        activations: &Vec<Matrix<T>>,
        zs: &Vec<Matrix<T>>,
        error: &Vec<T>,
        activation: &A,
    )
        requires
            trace_fits(old(weights)@, old(biases)@, activations@, zs@, error@),
        ensures
            shapes_kept(old(weights)@, old(biases)@, final(weights)@, final(biases)@),
            views(final(weights)@) == self.stepped_weights(
                views(old(weights)@),
                grid(old(biases)@),
                views(activations@),
                slopes_of(*activation, views(zs@)),
                error@,
            ),
            grid(final(biases)@) == self.stepped_biases(
                views(old(weights)@),
                grid(old(biases)@),
                views(activations@),
                slopes_of(*activation, views(zs@)),
                error@,
            ),
    ;
}

} // verus!
