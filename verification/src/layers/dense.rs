use super::Layer;
use crate::activations::{activate, Activation, Relu};
use crate::fixed::Fixed;
use crate::initializers::{Initializer, Zeros};
use crate::matrix::Matrix;
use crate::scalar::Scalar;
use core::marker::PhantomData;
use vstd::prelude::*;

verus! {

/// A densely connected layer of `M` inputs and `N` outputs.
///
/// Its segment of the weights holds `M * N` entries, and so does its segment
/// of the biases: output `j` owns the `M` entries from `j * M` on, one for
/// each input.
pub struct Dense<const M: usize, const N: usize, A = Relu, I = Zeros, J = Zeros, T = Fixed> {
    weight_initializer: I,
    bias_initializer: J,
    activation: A,
    _phantom: PhantomData<T>,
}

/// The pre-activation of the output whose parameters start at `offset`,
/// over the first `n` inputs: the sum, from zero and in the order of the
/// inputs, of each weight times its input plus its bias.
pub open spec fn neuron<T: Scalar>(
    weights: Seq<T>,
    biases: Seq<T>,
    input: Seq<T>,
    offset: int,
    n: nat,
) -> T
    decreases n,
{
    if n == 0 {
        T::zero_spec()
    } else {
        neuron(weights, biases, input, offset, (n - 1) as nat).add_spec(
            weights[offset + n - 1].mul_spec(input[n - 1]).add_spec(biases[offset + n - 1]),
        )
    }
}

/// The output row of a dense layer of `m` inputs and `n` outputs with the
/// activation `act`.
pub open spec fn dense_output<T: Scalar, A: Activation<T>>(
    act: A,
    weights: Seq<T>,
    biases: Seq<T>,
    input: Seq<T>,
    m: nat,
    n: nat,
) -> Seq<T> {
    Seq::new(n, |j: int| act.apply_spec(neuron(weights, biases, input, j * m, m)))
}

impl<const M: usize, const N: usize, A, I, J, T> Dense<M, N, A, I, J, T> where
    I: Initializer<T>,
    J: Initializer<T>,
    A: Activation<T>,
    T: Scalar,
 {
    pub closed spec fn weight_initializer_spec(&self) -> I {
        self.weight_initializer
    }

    pub closed spec fn bias_initializer_spec(&self) -> J {
        self.bias_initializer
    }

    pub closed spec fn activation_spec(&self) -> A {
        self.activation
    }
}

impl<const M: usize, const N: usize, A, I, J, T> Dense<M, N, A, I, J, T> where
    I: Initializer<T> + Default,
    J: Initializer<T> + Default,
    A: Activation<T> + Default,
    T: Scalar,
 {
    /// A layer with the default activation and the default initializers.
    pub fn new() -> (r: Self)
        requires
            M * N <= usize::MAX,
        ensures
            r.wf(),
            call_ensures(I::default, (), r.weight_initializer_spec()),
            call_ensures(J::default, (), r.bias_initializer_spec()),
            call_ensures(A::default, (), r.activation_spec()),
    {
        Self {
            weight_initializer: I::default(),
            bias_initializer: J::default(),
            activation: A::default(),
            _phantom: PhantomData,
        }
    }
}

impl<const M: usize, const N: usize, A, I, J, T> Dense<M, N, A, I, J, T> where
    I: Initializer<T>,
    J: Initializer<T>,
    A: Activation<T> + Default,
    T: Scalar,
 {
    /// A layer with the default activation and the given initializers.
    pub fn with_initializers(weight_initializer: I, bias_initializer: J) -> (r: Self)
        requires
            M * N <= usize::MAX,
        ensures
            r.wf(),
            r.weight_initializer_spec() == weight_initializer,
            r.bias_initializer_spec() == bias_initializer,
            call_ensures(A::default, (), r.activation_spec()),
    {
        Self {
            weight_initializer,
            bias_initializer,
            activation: A::default(),
            _phantom: PhantomData,
        }
    }
}

impl<const M: usize, const N: usize, A, I, J, T> Dense<M, N, A, I, J, T> where
    I: Initializer<T> + Default,
    J: Initializer<T> + Default,
    A: Activation<T>,
    T: Scalar,
 {
    /// A layer with the given activation and the default initializers.
    pub fn with_activation(activation: A) -> (r: Self)
        requires
            M * N <= usize::MAX,
        ensures
            r.wf(),
            r.activation_spec() == activation,
            call_ensures(I::default, (), r.weight_initializer_spec()),
            call_ensures(J::default, (), r.bias_initializer_spec()),
    {
        Self {
            weight_initializer: I::default(),
            bias_initializer: J::default(),
            activation,
            _phantom: PhantomData,
        }
    }
}

impl<const M: usize, const N: usize, A, I, J, T> Layer<M, N, T> for Dense<M, N, A, I, J, T> where
    I: Initializer<T>,
    J: Initializer<T>,
    A: Activation<T>,
    T: Scalar,
 {
    open spec fn wf(&self) -> bool {
        M * N <= usize::MAX
    }

    open spec fn shape_spec(&self) -> nat {
        (M * N) as nat
    }

    open spec fn predict_spec(&self, weights: Seq<T>, biases: Seq<T>, input: Seq<T>) -> Seq<T> {
        dense_output(self.activation_spec(), weights, biases, input, M as nat, N as nat)
    }

    open spec fn generates_weights(&self, weights: Seq<T>) -> bool {
        &&& weights.len() == M * N
        &&& forall|k: int|
            0 <= k < weights.len() ==> self.weight_initializer_spec().admits(#[trigger] weights[k])
    }

    open spec fn generates_biases(&self, biases: Seq<T>) -> bool {
        &&& biases.len() == M * N
        &&& forall|k: int|
            0 <= k < biases.len() ==> self.bias_initializer_spec().admits(#[trigger] biases[k])
    }

    fn shape(&self) -> (n: usize) {
        M * N
    }

    fn input_shape(&self) -> (n: usize) {
        M
    }

    fn output_shape(&self) -> (n: usize) {
        N
    }

    fn predict(&self, weights: &[T], biases: &[T], input: &[T]) -> (out: Vec<T>) {
        let mut z: Vec<T> = Vec::new();
        let mut offset: usize = 0;
        let mut j: usize = 0;
        while j < N
            invariant
                j <= N,
                offset == j * M,
                M * N <= usize::MAX,
                weights@.len() == M * N,
                biases@.len() == M * N,
                input@.len() == M,
                z@.len() == j,
                forall|c: int|
                    0 <= c < j ==> #[trigger] z@[c] == neuron(
                        weights@,
                        biases@,
                        input@,
                        c * M,
                        M as nat,
                    ),
            decreases N - j,
        {
            proof {
                assert(j * M + M <= N * M) by (nonlinear_arith)
                    requires
                        j < N,
                ;
                assert(N * M == M * N) by (nonlinear_arith);
            }
            let mut acc = T::zero();
            let mut i: usize = 0;
            while i < M
                invariant
                    i <= M,
                    offset + M <= weights@.len(),
                    weights@.len() == biases@.len(),
                    weights@.len() <= usize::MAX,
                    input@.len() == M,
                    acc == neuron(weights@, biases@, input@, offset as int, i as nat),
                decreases M - i,
            {
                acc = acc.add(weights[offset + i].mul(input[i]).add(biases[offset + i]));
                i += 1;
            }
            z.push(acc);
            proof {
                assert((j + 1) * M == j * M + M) by (nonlinear_arith);
            }
            offset += M;
            j += 1;
        }
        let mut rows: Vec<Vec<T>> = Vec::new();
        rows.push(z);
        let batch = Matrix::from_rows(N, rows).unwrap();
        let activated = activate(&self.activation, &batch);
        let out = crate::matrix::vec_copy(activated.row(0));
        proof {
            assert(out@ =~= self.predict_spec(weights@, biases@, input@));
        }
        out
    }

    fn gen_weights(&mut self) -> (weights: Vec<T>) {
        self.weight_initializer.gen(M * N)
    }

    fn gen_biases(&mut self) -> (biases: Vec<T>) {
        self.bias_initializer.gen(M * N)
    }
}

} // verus!
