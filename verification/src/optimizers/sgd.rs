use super::{slopes_of, trace_fits, views, Optimizer};
use crate::activations::{derived, differentiate, Activation};
use crate::fixed::Fixed;
use crate::matrix::{
    col_means, grid, hadamard, mat_mul, mat_sub, mul_row, scale, seq_scale, seq_sub, transpose,
    vec_scale, vec_sub, Matrix,
};
use crate::scalar::Scalar;
use vstd::prelude::*;

verus! {

/// Plain gradient descent with a fixed learning rate.
pub struct SGD<T = Fixed> {
    learning_rate: T,
}

/// The error term of layer `i`: the derivative of the loss by the layer's
/// pre-activations. At the last layer it is the error signal times the
/// derivative of the activation; below, the error term of the next layer
/// carried back through that layer's weights, times the derivative of the
/// activation.
pub open spec fn delta_at<T: Scalar>(
    weights: Seq<Seq<Seq<T>>>,
    biases: Seq<Seq<T>>,
    slopes: Seq<Seq<Seq<T>>>,
    error: Seq<T>,
    i: int,
) -> Seq<Seq<T>>
    decreases weights.len() - i,
{
    if i >= weights.len() - 1 {
        mul_row(error, slopes[i])
    } else {
        hadamard(
            mat_mul(
                delta_at(weights, biases, slopes, error, i + 1),
                transpose(weights[i + 1], biases[i + 1].len()),
                weights[i + 1].len(),
            ),
            slopes[i],
        )
    }
}

/// The gradient of the loss by the weights of layer `i`: the transposed
/// incoming activations times the layer's error term.
pub open spec fn weight_gradient<T: Scalar>(
    weights: Seq<Seq<Seq<T>>>,
    biases: Seq<Seq<T>>,
    activations: Seq<Seq<Seq<T>>>,
    slopes: Seq<Seq<Seq<T>>>,
    error: Seq<T>,
    i: int,
) -> Seq<Seq<T>> {
    mat_mul(
        transpose(activations[i], weights[i].len()),
        delta_at(weights, biases, slopes, error, i),
        biases[i].len(),
    )
}

/// The gradient of the loss by the biases of layer `i`: the mean over the
/// batch of each column of the layer's error term.
pub open spec fn bias_gradient<T: Scalar>(
    weights: Seq<Seq<Seq<T>>>,
    biases: Seq<Seq<T>>,
    slopes: Seq<Seq<Seq<T>>>,
    error: Seq<T>,
    i: int,
) -> Seq<T> {
    col_means(delta_at(weights, biases, slopes, error, i), biases[i].len())
}

/// The weights of every layer after one step of gradient descent: each
/// matrix less `rate` times its gradient.
pub open spec fn descended_weights<T: Scalar>(
    rate: T,
    weights: Seq<Seq<Seq<T>>>,
    biases: Seq<Seq<T>>,
    activations: Seq<Seq<Seq<T>>>,
    slopes: Seq<Seq<Seq<T>>>,
    error: Seq<T>,
) -> Seq<Seq<Seq<T>>> {
    Seq::new(
        weights.len(),
        |i: int|
            mat_sub(
                weights[i],
                scale(weight_gradient(weights, biases, activations, slopes, error, i), rate),
            ),
    )
}

/// The biases of every layer after one step of gradient descent: each
/// vector less `rate` times its gradient.
pub open spec fn descended_biases<T: Scalar>(
    rate: T,
    weights: Seq<Seq<Seq<T>>>,
    biases: Seq<Seq<T>>,
    slopes: Seq<Seq<Seq<T>>>,
    error: Seq<T>,
) -> Seq<Seq<T>> {
    Seq::new(
        biases.len(),
        |i: int|
            seq_sub(biases[i], seq_scale(bias_gradient(weights, biases, slopes, error, i), rate)),
    )
}

impl<T: Scalar> SGD<T> {
    /// The learning rate.
    pub closed spec fn rate(&self) -> T {
        self.learning_rate
    }

    pub fn new(learning_rate: T) -> (r: Self)
        ensures
            r.rate() == learning_rate,
    {
        Self { learning_rate }
    }

    pub fn learning_rate(&self) -> (r: T)
        ensures
            r == self.rate(),
    {
        self.learning_rate
    }
}

impl<T: Scalar> Optimizer<T> for SGD<T> {
    open spec fn stepped_weights(
        &self,
        weights: Seq<Seq<Seq<T>>>,
        biases: Seq<Seq<T>>,
        activations: Seq<Seq<Seq<T>>>,
        slopes: Seq<Seq<Seq<T>>>,
        error: Seq<T>,
    ) -> Seq<Seq<Seq<T>>> {
        descended_weights(self.rate(), weights, biases, activations, slopes, error)
    }

    open spec fn stepped_biases(
        &self,
        weights: Seq<Seq<Seq<T>>>,
        biases: Seq<Seq<T>>,
        activations: Seq<Seq<Seq<T>>>,
        slopes: Seq<Seq<Seq<T>>>,
        error: Seq<T>,
    ) -> Seq<Seq<T>> {
        descended_biases(self.rate(), weights, biases, slopes, error)
    }

    fn minimize<A: Activation<T>>(
        &self,
        weights: &mut Vec<Matrix<T>>,
        biases: &mut Vec<Vec<T>>,
        activations: &Vec<Matrix<T>>,
        zs: &Vec<Matrix<T>>,
        error: &Vec<T>,
        activation: &A,
    ) {
        let n = weights.len();
        if n == 0 {
            proof {
                assert(views(weights@) =~= self.stepped_weights(
                    views(weights@),
                    grid(biases@),
                    views(activations@),
                    slopes_of(*activation, views(zs@)),
                    error@,
                ));
                assert(grid(biases@) =~= self.stepped_biases(
                    views(weights@),
                    grid(biases@),
                    views(activations@),
                    slopes_of(*activation, views(zs@)),
                    error@,
                ));
            }
            return;
        }
        let ghost w0 = weights@;
        let ghost b0 = biases@;
        let ghost ws = views(weights@);
        let ghost bs = grid(biases@);
        let ghost acts = views(activations@);
        let ghost slopes = slopes_of(*activation, views(zs@));
        let ghost batch = activations@[0]@.len();

        assert(zs@[n - 1].wf());
        assert(w0[n - 1].wf());
        assert(slopes[n - 1] == derived(*activation, zs@[n - 1]@));
        let mut delta = differentiate(activation, &zs[n - 1]).mul_row(error);
        let mut i: usize = n;
        while i > 0
            invariant
                0 <= i <= n,
                n == w0.len(),
                ws == views(w0),
                bs == grid(b0),
                acts == views(activations@),
                slopes == slopes_of(*activation, views(zs@)),
                batch == activations@[0]@.len(),
                trace_fits(w0, b0, activations@, zs@, error@),
                weights@.len() == n,
                biases@.len() == n,
                i > 0 ==> {
                    &&& delta.wf()
                    &&& delta@.len() == batch
                    &&& delta.width() == w0[i - 1].width()
                    &&& delta@ == delta_at(ws, bs, slopes, error@, i - 1)
                },
                forall|j: int| 0 <= j < i ==> (#[trigger] weights@[j]) == w0[j],
                forall|j: int| 0 <= j < i ==> (#[trigger] biases@[j]) == b0[j],
                forall|j: int|
                    i <= j < n ==> {
                        &&& (#[trigger] weights@[j]).wf()
                        &&& weights@[j].width() == w0[j].width()
                        &&& weights@[j]@.len() == w0[j]@.len()
                        &&& weights@[j]@ == self.stepped_weights(ws, bs, acts, slopes, error@)[j]
                    },
                forall|j: int|
                    i <= j < n ==> {
                        &&& (#[trigger] biases@[j])@.len() == b0[j]@.len()
                        &&& biases@[j]@ == self.stepped_biases(ws, bs, acts, slopes, error@)[j]
                    },
            decreases i,
        {
            i -= 1;
            assert(weights@[i as int] == w0[i as int]);
            assert(biases@[i as int] == b0[i as int]);
            assert(w0[i as int].wf());
            assert(activations@[i as int].wf());
            let kept = weights[i].copy();

            let delta_bias = delta.column_means();
            let delta_weight = activations[i].t().dot(&delta);
            proof {
                assert(ws[i as int] == w0[i as int]@);
                assert(bs[i as int] == b0[i as int]@);
                assert(acts[i as int] == activations@[i as int]@);
                assert(delta_weight@ == weight_gradient(ws, bs, acts, slopes, error@, i as int));
                assert(delta_bias@ == bias_gradient(ws, bs, slopes, error@, i as int));
            }

            let new_weights = weights[i].subtract(&delta_weight.scale(self.learning_rate));
            let new_biases = vec_sub(&biases[i], &vec_scale(&delta_bias, self.learning_rate));
            weights.set(i, new_weights);
            biases.set(i, new_biases);

            if i != 0 {
                assert(zs@[i - 1].wf());
                assert(w0[i - 1].width() == w0[i as int]@.len());
                let slope = differentiate(activation, &zs[i - 1]);
                assert(slopes[i - 1] == derived(*activation, zs@[i - 1]@));
                delta = delta.dot(&kept.t()).hadamard(&slope);
            }
        }
        proof {
            assert(views(weights@) =~= self.stepped_weights(ws, bs, acts, slopes, error@));
            assert(grid(biases@) =~= self.stepped_biases(ws, bs, acts, slopes, error@));
        }
    }
}

impl Default for SGD<Fixed> {
    fn default() -> (r: Self)
        ensures
            r.rate() == (Fixed { raw: 2_500 }),
    {
        Self { learning_rate: Fixed { raw: 2_500 } }
    }
}

} // verus!
