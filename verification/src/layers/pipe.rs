use super::{Input, Layer};
use crate::fixed::Fixed;
use crate::scalar::Scalar;
use core::marker::PhantomData;
use vstd::prelude::*;

verus! {

/// Two layers joined into one: the parent's `N` outputs are the child's
/// inputs. The flat weight and bias arrays of the chain hold the parent's
/// segment first and the child's after it.
pub struct Pipe<const M: usize, const N: usize, const O: usize, P, C, T = Fixed> {
    parent: P,
    child: C,
    _phantom: PhantomData<T>,
}

impl<const M: usize, const N: usize, const O: usize, P, C, T> Pipe<M, N, O, P, C, T> where
    P: Layer<M, N, T>,
    C: Layer<N, O, T>,
    T: Scalar,
 {
    /// The layer that comes first.
    pub closed spec fn parent_spec(&self) -> P {
        self.parent
    }

    /// The layer that comes second.
    pub closed spec fn child_spec(&self) -> C {
        self.child
    }

    /// Joins `parent` and `child`.
    pub fn new(parent: P, child: C) -> (r: Self)
        requires
            parent.wf(),
            child.wf(),
            parent.shape_spec() + child.shape_spec() <= usize::MAX,
        ensures
            r.wf(),
            r.parent_spec() == parent,
            r.child_spec() == child,
    {
        Self { parent, child, _phantom: PhantomData }
    }
}

/// A chain takes as many parameters as its two parts together.
pub proof fn lemma_shape_additive<const M: usize, const N: usize, const O: usize, P, C, T>(
    pipe: Pipe<M, N, O, P, C, T>,
) where P: Layer<M, N, T>, C: Layer<N, O, T>, T: Scalar
    ensures
        pipe.shape_spec() == pipe.parent_spec().shape_spec() + pipe.child_spec().shape_spec(),
{
}

/// An input layer joined to an input layer changes nothing: the chain has
/// no parameters and hands every row on as it came.
pub proof fn lemma_input_chain_is_identity<const M: usize, T: Scalar>(
    pipe: Pipe<M, M, M, Input<M, T>, Input<M, T>, T>,
    weights: Seq<T>,
    biases: Seq<T>,
    input: Seq<T>,
)
    ensures
        pipe.shape_spec() == 0,
        pipe.predict_spec(weights, biases, input) == input,
{
}

/// An input layer in front of a layer adds no parameter and leaves the
/// layer's output as it is.
pub proof fn lemma_input_parent_is_neutral<const M: usize, const N: usize, C, T>(
    pipe: Pipe<M, M, N, Input<M, T>, C, T>,
    weights: Seq<T>,
    biases: Seq<T>,
    input: Seq<T>,
) where C: Layer<M, N, T>, T: Scalar
    ensures
        pipe.shape_spec() == pipe.child_spec().shape_spec(),
        pipe.predict_spec(weights, biases, input) == pipe.child_spec().predict_spec(
            weights,
            biases,
            input,
        ),
{
    assert(weights.skip(0) =~= weights);
    assert(biases.skip(0) =~= biases);
}

impl<const M: usize, const N: usize, const O: usize, P, C, T> Layer<M, O, T> for Pipe<
    M,
    N,
    O,
    P,
    C,
    T,
> where P: Layer<M, N, T>, C: Layer<N, O, T>, T: Scalar {
    open spec fn wf(&self) -> bool {
        &&& self.parent_spec().wf()
        &&& self.child_spec().wf()
        &&& self.parent_spec().shape_spec() + self.child_spec().shape_spec() <= usize::MAX
    }

    /// The parameter count of a chain is the sum of its two parts'.
    open spec fn shape_spec(&self) -> nat {
        self.parent_spec().shape_spec() + self.child_spec().shape_spec()
    }

    /// The child's output on the parent's output, each with its own segment
    /// of the parameters: the parent's comes first.
    open spec fn predict_spec(&self, weights: Seq<T>, biases: Seq<T>, input: Seq<T>) -> Seq<T> {
        let split = self.parent_spec().shape_spec() as int;
        self.child_spec().predict_spec(
            weights.skip(split),
            biases.skip(split),
            self.parent_spec().predict_spec(weights.take(split), biases.take(split), input),
        )
    }

    /// What the parent generates, followed by what the child generates.
    open spec fn generates_weights(&self, weights: Seq<T>) -> bool {
        let split = self.parent_spec().shape_spec() as int;
        &&& weights.len() == self.shape_spec()
        &&& self.parent_spec().generates_weights(weights.take(split))
        &&& self.child_spec().generates_weights(weights.skip(split))
    }

    /// What the parent generates, followed by what the child generates.
    open spec fn generates_biases(&self, biases: Seq<T>) -> bool {
        let split = self.parent_spec().shape_spec() as int;
        &&& biases.len() == self.shape_spec()
        &&& self.parent_spec().generates_biases(biases.take(split))
        &&& self.child_spec().generates_biases(biases.skip(split))
    }

    fn shape(&self) -> (n: usize) {
        self.child.shape() + self.parent.shape()
    }

    fn input_shape(&self) -> (n: usize) {
        M
    }

    fn output_shape(&self) -> (n: usize) {
        O
    }

    fn predict(&self, weights: &[T], biases: &[T], input: &[T]) -> (out: Vec<T>) {
        let n_parent = self.parent.shape();
        let between = self.parent.predict(
            vstd::slice::slice_subrange(weights, 0, n_parent),
            vstd::slice::slice_subrange(biases, 0, n_parent),
            input,
        );
        self.child.predict(
            vstd::slice::slice_subrange(weights, n_parent, weights.len()),
            vstd::slice::slice_subrange(biases, n_parent, biases.len()),
            between.as_slice(),
        )
    }

    fn gen_weights(&mut self) -> (weights: Vec<T>) {
        let mut weights = self.parent.gen_weights();
        let mut rest = self.child.gen_weights();
        let ghost first = weights@;
        let ghost second = rest@;
        weights.append(&mut rest);
        proof {
            assert(weights@.take(first.len() as int) =~= first);
            assert(weights@.skip(first.len() as int) =~= second);
        }
        weights
    }

    fn gen_biases(&mut self) -> (biases: Vec<T>) {
        let mut biases = self.parent.gen_biases();
        let mut rest = self.child.gen_biases();
        let ghost first = biases@;
        let ghost second = rest@;
        biases.append(&mut rest);
        proof {
            assert(biases@.take(first.len() as int) =~= first);
            assert(biases@.skip(first.len() as int) =~= second);
        }
        biases
    }
}

} // verus!
