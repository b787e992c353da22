//! The model: the owner of every layer's weight matrix and bias vector. It
//! predicts by passing a batch through the layers in order, and trains by
//! mini-batch gradient descent on the gradients that backpropagation gives.

use crate::activations::{activate, activated, Activation, Relu};
use crate::fixed::Fixed;
use crate::initializers::Initializer;
use crate::losses::{Loss, MeanSquaredError};
use crate::matrix::{add_row, grid, mat_mul, rectangular, Matrix};
use crate::optimizers::{descended_biases, descended_weights, slopes_of, views, Optimizer, SGD};
use crate::scalar::Scalar;
use vstd::prelude::*;

verus! {

/// What a layer with weights `w` and biases `b` makes of the batch `a` before
/// activation: `a * w` with `b` added to each row.
pub open spec fn affine<T: Scalar>(a: Seq<Seq<T>>, w: Seq<Seq<T>>, b: Seq<T>) -> Seq<Seq<T>> {
    add_row(mat_mul(a, w, b.len()), b)
}

/// The batch `x` after the first `k` layers.
pub open spec fn activation_at<T: Scalar, A: Activation<T>>(
    act: A,
    weights: Seq<Seq<Seq<T>>>,
    biases: Seq<Seq<T>>,
    x: Seq<Seq<T>>,
    k: nat,
) -> Seq<Seq<T>>
    decreases k,
{
    if k == 0 {
        x
    } else {
        activated(
            act,
            affine(
                activation_at(act, weights, biases, x, (k - 1) as nat),
                weights[k - 1],
                biases[k - 1],
            ),
        )
    }
}

/// The pre-activations of layer `k` on the batch `x`.
pub open spec fn pre_activation_at<T: Scalar, A: Activation<T>>(
    act: A,
    weights: Seq<Seq<Seq<T>>>,
    biases: Seq<Seq<T>>,
    x: Seq<Seq<T>>,
    k: nat,
) -> Seq<Seq<T>> {
    affine(activation_at(act, weights, biases, x, k), weights[k as int], biases[k as int])
}

/// The batch `x` and what it is after each layer.
pub open spec fn activations_of<T: Scalar, A: Activation<T>>(
    act: A,
    weights: Seq<Seq<Seq<T>>>,
    biases: Seq<Seq<T>>,
    x: Seq<Seq<T>>,
) -> Seq<Seq<Seq<T>>> {
    Seq::new(weights.len() + 1, |k: int| activation_at(act, weights, biases, x, k as nat))
}

/// The pre-activations of every layer on the batch `x`.
pub open spec fn pre_activations_of<T: Scalar, A: Activation<T>>(
    act: A,
    weights: Seq<Seq<Seq<T>>>,
    biases: Seq<Seq<T>>,
    x: Seq<Seq<T>>,
) -> Seq<Seq<Seq<T>>> {
    Seq::new(weights.len(), |k: int| pre_activation_at(act, weights, biases, x, k as nat))
}

/// The weights after one step of gradient descent on the batch `x` with the
/// error signal `error`.
pub open spec fn backpropagated_weights<T: Scalar, A: Activation<T>>(
    act: A,
    rate: T,
    weights: Seq<Seq<Seq<T>>>,
    biases: Seq<Seq<T>>,
    x: Seq<Seq<T>>,
    error: Seq<T>,
) -> Seq<Seq<Seq<T>>> {
    descended_weights(
        rate,
        weights,
        biases,
        activations_of(act, weights, biases, x),
        slopes_of(act, pre_activations_of(act, weights, biases, x)),
        error,
    )
}

/// The biases after one step of gradient descent on the batch `x` with the
/// error signal `error`.
pub open spec fn backpropagated_biases<T: Scalar, A: Activation<T>>(
    act: A,
    rate: T,
    weights: Seq<Seq<Seq<T>>>,
    biases: Seq<Seq<T>>,
    x: Seq<Seq<T>>,
    error: Seq<T>,
) -> Seq<Seq<T>> {
    descended_biases(
        rate,
        weights,
        biases,
        slopes_of(act, pre_activations_of(act, weights, biases, x)),
        error,
    )
}

/// The error signal of the batch `(x, y)` under the given parameters: the
/// loss of the prediction for `x` against `y`, which has `width` columns.
pub open spec fn batch_error<T: Scalar, A: Activation<T>, L: Loss<T>>(
    act: A,
    loss: L,
    weights: Seq<Seq<Seq<T>>>,
    biases: Seq<Seq<T>>,
    x: Seq<Seq<T>>,
    y: Seq<Seq<T>>,
    width: nat,
) -> Seq<T> {
    loss.get_spec(y, activation_at(act, weights, biases, x, weights.len()), width)
}

/// The parameters after training on the rows of `x` and `y` in batches of
/// `size` rows, from the first row on: one step of gradient descent for each
/// full batch, each step starting from the parameters that the step before
/// left. Rows that do not fill a batch are left out.
pub open spec fn fitted<T: Scalar, A: Activation<T>, L: Loss<T>>(
    act: A,
    loss: L,
    rate: T,
    weights: Seq<Seq<Seq<T>>>,
    biases: Seq<Seq<T>>,
    x: Seq<Seq<T>>,
    y: Seq<Seq<T>>,
    width: nat,
    size: nat,
) -> (Seq<Seq<Seq<T>>>, Seq<Seq<T>>)
    decreases x.len(),
{
    if size == 0 || x.len() < size {
        (weights, biases)
    } else {
        let xb = x.take(size as int);
        let yb = y.take(size as int);
        let error = batch_error(act, loss, weights, biases, xb, yb, width);
        fitted(
            act,
            loss,
            rate,
            backpropagated_weights(act, rate, weights, biases, xb, error),
            backpropagated_biases(act, rate, weights, biases, xb, error),
            x.skip(size as int),
            y.skip(size as int),
            width,
            size,
        )
    }
}

/// Training runs through the batches in order: to train on rows that fill
/// `k` batches and then on further rows is to train on all of them at once.
pub proof fn lemma_fit_is_sequential<T: Scalar, A: Activation<T>, L: Loss<T>>(
    act: A,
    loss: L,
    rate: T,
    weights: Seq<Seq<Seq<T>>>,
    biases: Seq<Seq<T>>,
    x: Seq<Seq<T>>,
    y: Seq<Seq<T>>,
    more_x: Seq<Seq<T>>,
    more_y: Seq<Seq<T>>,
    width: nat,
    size: nat,
    k: nat,
)
    requires
        size > 0,
        x.len() == k * size,
        y.len() == x.len(),
    ensures
        fitted(act, loss, rate, weights, biases, x + more_x, y + more_y, width, size) == ({
            let first = fitted(act, loss, rate, weights, biases, x, y, width, size);
            fitted(act, loss, rate, first.0, first.1, more_x, more_y, width, size)
        }),
    decreases k,
{
    if k == 0 {
        assert(x.len() == 0) by (nonlinear_arith)
            requires
                k == 0,
                x.len() == k * size,
        ;
        assert(x + more_x =~= more_x);
        assert(y + more_y =~= more_y);
    } else {
        assert(x.len() >= size && (k - 1) * size == x.len() - size) by (nonlinear_arith)
            requires
                k >= 1,
                size > 0,
                x.len() == k * size,
        ;
        let xb = x.take(size as int);
        let yb = y.take(size as int);
        assert((x + more_x).take(size as int) =~= xb);
        assert((y + more_y).take(size as int) =~= yb);
        assert((x + more_x).skip(size as int) =~= x.skip(size as int) + more_x);
        assert((y + more_y).skip(size as int) =~= y.skip(size as int) + more_y);
        let error = batch_error(act, loss, weights, biases, xb, yb, width);
        lemma_fit_is_sequential(
            act,
            loss,
            rate,
            backpropagated_weights(act, rate, weights, biases, xb, error),
            backpropagated_biases(act, rate, weights, biases, xb, error),
            x.skip(size as int),
            y.skip(size as int),
            more_x,
            more_y,
            width,
            size,
            (k - 1) as nat,
        );
    }
}

/// Rows that do not fill a batch are skipped: training on `k` full batches
/// followed by fewer rows than a batch is training on the full batches alone.
pub proof fn lemma_fit_skips_short_tail<T: Scalar, A: Activation<T>, L: Loss<T>>(
    act: A,
    loss: L,
    rate: T,
    weights: Seq<Seq<Seq<T>>>,
    biases: Seq<Seq<T>>,
    x: Seq<Seq<T>>,
    y: Seq<Seq<T>>,
    width: nat,
    size: nat,
    k: nat,
)
    requires
        size > 0,
        y.len() == x.len(),
        k * size <= x.len() < k * size + size,
    ensures
        fitted(act, loss, rate, weights, biases, x, y, width, size) == fitted(
            act,
            loss,
            rate,
            weights,
            biases,
            x.take((k * size) as int),
            y.take((k * size) as int),
            width,
            size,
        ),
{
    let full = (k * size) as int;
    assert(x.take(full) + x.skip(full) =~= x);
    assert(y.take(full) + y.skip(full) =~= y);
    lemma_fit_is_sequential(
        act,
        loss,
        rate,
        weights,
        biases,
        x.take(full),
        y.take(full),
        x.skip(full),
        y.skip(full),
        width,
        size,
        k,
    );
}

/// A stack of dense layers with one activation, a loss, a learning rate and
/// a mini-batch size.
pub struct Model<A = Relu, L = MeanSquaredError, T = Fixed> where
    A: Activation<T>,
    L: Loss<T>,
    T: Scalar,
 {
    weights: Vec<Matrix<T>>,
    biases: Vec<Vec<T>>,
    activation: A,
    loss: L,
    batch_size: usize,
    learning_rate: T,
}

impl<A, L, T> Model<A, L, T> where A: Activation<T>, L: Loss<T>, T: Scalar {
    /// The weight matrix of each layer, first layer first.
    pub closed spec fn weights_view(&self) -> Seq<Seq<Seq<T>>> {
        views(self.weights@)
    }

    /// The bias vector of each layer, first layer first.
    pub closed spec fn biases_view(&self) -> Seq<Seq<T>> {
        grid(self.biases@)
    }

    /// The input and the output width of each layer.
    pub closed spec fn shapes(&self) -> Seq<(nat, nat)> {
        Seq::new(self.weights@.len(), |i: int| (self.weights@[i]@.len(), self.weights@[i].width()))
    }

    pub closed spec fn activation_spec(&self) -> A {
        self.activation
    }

    pub closed spec fn loss_spec(&self) -> L {
        self.loss
    }

    /// The learning rate.
    pub closed spec fn rate(&self) -> T {
        self.learning_rate
    }

    /// The number of rows in a mini-batch.
    pub closed spec fn batch(&self) -> nat {
        self.batch_size as nat
    }

    /// A mini-batch has at least one row; every layer has a weight matrix of
    /// its shape and one bias for each of its outputs; each layer puts out as
    /// many columns as the next one takes in.
    pub open spec fn wf(&self) -> bool {
        &&& self.batch() > 0
        &&& self.weights_view().len() == self.shapes().len()
        &&& self.biases_view().len() == self.shapes().len()
        &&& forall|i: int|
            0 <= i < self.shapes().len() ==> {
                &&& (#[trigger] self.weights_view()[i]).len() == self.shapes()[i].0
                &&& rectangular(self.weights_view()[i], self.shapes()[i].1)
            }
        &&& forall|i: int|
            0 <= i < self.shapes().len() ==> (#[trigger] self.biases_view()[i]).len()
                == self.shapes()[i].1
        &&& forall|i: int|
            0 <= i < self.shapes().len() - 1 ==> (#[trigger] self.shapes()[i]).1 == self.shapes()[i
                + 1].0
    }

    /// Whether the model takes batches of `width` columns: any width while it
    /// has no layer, and the input width of its first layer after that.
    pub open spec fn takes(&self, width: nat) -> bool {
        self.shapes().len() > 0 ==> self.shapes()[0].0 == width
    }

    /// The width of what the model makes of a batch of `width` columns.
    pub open spec fn output_width(&self, width: nat) -> nat {
        if self.shapes().len() == 0 {
            width
        } else {
            self.shapes().last().1
        }
    }

    /// What the model makes of the batch `x`: the batch after the last layer.
    pub open spec fn prediction(&self, x: Seq<Seq<T>>) -> Seq<Seq<T>> {
        activation_at(
            self.activation_spec(),
            self.weights_view(),
            self.biases_view(),
            x,
            self.weights_view().len(),
        )
    }

    /// Whether `other` has the activation, loss, learning rate, batch size
    /// and layer shapes of this model.
    pub open spec fn same_settings(&self, other: &Self) -> bool {
        &&& self.activation_spec() == other.activation_spec()
        &&& self.loss_spec() == other.loss_spec()
        &&& self.rate() == other.rate()
        &&& self.batch() == other.batch()
        &&& self.shapes() == other.shapes()
    }

    /// The weight matrices, first layer first.
    pub fn weights(&self) -> (r: &Vec<Matrix<T>>)
        ensures
            views(r@) == self.weights_view(),
            self.wf() ==> forall|i: int|
                0 <= i < r@.len() ==> {
                    &&& (#[trigger] r@[i]).wf()
                    &&& r@[i]@.len() == self.shapes()[i].0
                    &&& r@[i].width() == self.shapes()[i].1
                },
    {
        proof {
            if self.wf() {
                assert forall|i: int| 0 <= i < self.weights@.len() implies {
                    &&& (#[trigger] self.weights@[i]).wf()
                    &&& self.weights@[i]@.len() == self.shapes()[i].0
                    &&& self.weights@[i].width() == self.shapes()[i].1
                } by {
                    self.layer_facts(i);
                }
            }
        }
        &self.weights
    }

    /// The bias vectors, first layer first.
    pub fn biases(&self) -> (r: &Vec<Vec<T>>)
        ensures
            grid(r@) == self.biases_view(),
    {
        &self.biases
    }

    pub fn batch_size(&self) -> (r: usize)
        ensures
            r == self.batch(),
    {
        self.batch_size
    }

    pub fn learning_rate(&self) -> (r: T)
        ensures
            r == self.rate(),
    {
        self.learning_rate
    }

    /// Sets the number of rows in a mini-batch.
    pub fn set_batch_size(&mut self, batch_size: usize)
        requires
            old(self).wf(),
            batch_size > 0,
        ensures
            final(self).wf(),
            final(self).batch() == batch_size,
            final(self).weights_view() == old(self).weights_view(),
            final(self).biases_view() == old(self).biases_view(),
            final(self).shapes() == old(self).shapes(),
            final(self).activation_spec() == old(self).activation_spec(),
            final(self).loss_spec() == old(self).loss_spec(),
            final(self).rate() == old(self).rate(),
    {
        self.batch_size = batch_size;
    }

    /// Appends a layer of `shape.0` inputs and `shape.1` outputs, its weights
    /// and its biases filled by `init`.
    pub fn add_layer<I: Initializer<T>>(&mut self, shape: (usize, usize), init: I)
        requires
            old(self).wf(),
            shape.0 * shape.1 <= usize::MAX,
            old(self).shapes().len() > 0 ==> old(self).shapes().last().1 == shape.0,
        ensures
            final(self).wf(),
            final(self).shapes() == old(self).shapes().push((shape.0 as nat, shape.1 as nat)),
            final(self).weights_view().len() == old(self).weights_view().len() + 1,
            final(self).weights_view().drop_last() == old(self).weights_view(),
            final(self).biases_view().len() == old(self).biases_view().len() + 1,
            final(self).biases_view().drop_last() == old(self).biases_view(),
            forall|i: int, j: int|
                0 <= i < shape.0 && 0 <= j < shape.1 ==> init.admits(
                    #[trigger] final(self).weights_view().last()[i][j],
                ),
            forall|j: int|
                0 <= j < shape.1 ==> init.admits(#[trigger] final(self).biases_view().last()[j]),
            final(self).activation_spec() == old(self).activation_spec(),
            final(self).loss_spec() == old(self).loss_spec(),
            final(self).rate() == old(self).rate(),
            final(self).batch() == old(self).batch(),
    {
        let ghost before = *self;
        let data = init.gen(shape.0 * shape.1);
        let w = Matrix::from_shape_vec(shape, data).unwrap();
        let b = init.gen(shape.1);
        proof {
            assert forall|i: int, j: int| 0 <= i < shape.0 && 0 <= j < shape.1 implies init.admits(
                #[trigger] w@[i][j],
            ) by {
                let cols = shape.1 as int;
                assert(0 <= i * cols && i * cols + cols <= shape.0 * cols) by (nonlinear_arith)
                    requires
                        0 <= i < shape.0,
                        0 <= cols,
                ;
                assert(w@[i] == data@.subrange(i * cols, i * cols + cols));
                assert(w@[i][j] == data@[i * cols + j]);
            }
        }
        self.weights.push(w);
        self.biases.push(b);
        proof {
            assert(self.weights_view().drop_last() =~= before.weights_view());
            assert(self.biases_view().drop_last() =~= before.biases_view());
            assert(self.shapes() =~= before.shapes().push((shape.0 as nat, shape.1 as nat)));
            assert(self.weights_view().last() == w@);
            assert(self.biases_view().last() == b@);
            assert forall|i: int| 0 <= i < self.shapes().len() implies {
                &&& (#[trigger] self.weights_view()[i]).len() == self.shapes()[i].0
                &&& rectangular(self.weights_view()[i], self.shapes()[i].1)
            } by {
                if i < before.shapes().len() {
                    assert(self.weights_view()[i] == before.weights_view()[i]);
                }
            }
            assert forall|i: int| 0 <= i < self.shapes().len() implies (
            #[trigger] self.biases_view()[i]).len() == self.shapes()[i].1 by {
                if i < before.shapes().len() {
                    assert(self.biases_view()[i] == before.biases_view()[i]);
                }
            }
            assert forall|i: int| 0 <= i < self.shapes().len() - 1 implies (
            #[trigger] self.shapes()[i]).1 == self.shapes()[i + 1].0 by {
                if i < before.shapes().len() - 1 {
                    assert(before.shapes()[i].1 == before.shapes()[i + 1].0);
                }
            }
        }
    }

    /// The model's output for the batch `input`: the batch passed through
    /// every layer in order, and unchanged where the model has no layer.
    pub fn predict(&self, input: &Matrix<T>) -> (r: Matrix<T>)
        requires
            self.wf(),
            input.wf(),
            self.takes(input.width()),
        ensures
            r.wf(),
            r@.len() == input@.len(),
            r.width() == self.output_width(input.width()),
            r@ == self.prediction(input@),
    {
        let n = self.weights.len();
        let mut a = input.copy();
        let mut i: usize = 0;
        while i < n
            invariant
                0 <= i <= n,
                n == self.weights@.len(),
                self.wf(),
                a.wf(),
                a@.len() == input@.len(),
                a.width() == (if i == 0 {
                    input.width()
                } else {
                    self.shapes()[i - 1].1
                }),
                self.takes(input.width()),
                a@ == activation_at(
                    self.activation_spec(),
                    self.weights_view(),
                    self.biases_view(),
                    input@,
                    i as nat,
                ),
            decreases n - i,
        {
            proof {
                self.layer_facts(i as int);
                if i > 0 {
                    assert(self.shapes()[i - 1].1 == self.shapes()[i as int].0);
                }
            }
            let z = a.dot(&self.weights[i]).add_row(&self.biases[i]);
            a = activate(&self.activation, &z);
            i += 1;
        }
        a
    }

    /// Trains on the rows of `x` and the targets `y` in mini-batches, from
    /// the first row on: for each full batch, one forward pass, the loss's
    /// error signal and one step of gradient descent, each step on the
    /// parameters that the step before left. Rows at the end that do not
    /// fill a batch are skipped.
    pub fn fit(&mut self, x: &Matrix<T>, y: &Matrix<T>)
        requires
            old(self).wf(),
            x.wf(),
            y.wf(),
            x@.len() == y@.len(),
            old(self).takes(x.width()),
            y.width() == old(self).output_width(x.width()),
        ensures
            final(self).wf(),
            old(self).same_settings(final(self)),
            (final(self).weights_view(), final(self).biases_view()) == fitted(
                old(self).activation_spec(),
                old(self).loss_spec(),
                old(self).rate(),
                old(self).weights_view(),
                old(self).biases_view(),
                x@,
                y@,
                y.width(),
                old(self).batch(),
            ),
    {
        let ghost before = *self;
        let n = x.nrows();
        let size = self.batch_size;
        let mut i: usize = 0;
        proof {
            assert(x@.skip(0) =~= x@);
            assert(y@.skip(0) =~= y@);
        }
        while n - i >= size
            invariant
                i <= n,
                n == x@.len(),
                n == y@.len(),
                size == self.batch(),
                x.wf(),
                y.wf(),
                before.wf(),
                self.wf(),
                before.same_settings(self),
                self.takes(x.width()),
                y.width() == self.output_width(x.width()),
                fitted(
                    before.activation_spec(),
                    before.loss_spec(),
                    before.rate(),
                    before.weights_view(),
                    before.biases_view(),
                    x@,
                    y@,
                    y.width(),
                    before.batch(),
                ) == fitted(
                    self.activation_spec(),
                    self.loss_spec(),
                    self.rate(),
                    self.weights_view(),
                    self.biases_view(),
                    x@.skip(i as int),
                    y@.skip(i as int),
                    y.width(),
                    self.batch(),
                ),
            decreases n - i,
        {
            let xb = x.slice_rows(i, i + size);
            let yb = y.slice_rows(i, i + size);
            let y_pred = self.predict(&xb);
            let error = self.loss.get(&yb, &y_pred);
            proof {
                assert(xb@ =~= x@.skip(i as int).take(size as int));
                assert(yb@ =~= y@.skip(i as int).take(size as int));
                assert(x@.skip(i as int).skip(size as int) =~= x@.skip(i + size));
                assert(y@.skip(i as int).skip(size as int) =~= y@.skip(i + size));
            }
            self.backpropagate(xb, error);
            i += size;
        }
    }

    /// One step of training on the batch `x`: a forward pass that keeps the
    /// pre-activations and activations of every layer, then one step of
    /// gradient descent from the error signal `error`.
    fn backpropagate(&mut self, x: Matrix<T>, error: Vec<T>)
        requires
            old(self).wf(),
            x.wf(),
            x@.len() > 0,
            old(self).takes(x.width()),
            error@.len() == old(self).output_width(x.width()),
        ensures
            final(self).wf(),
            old(self).same_settings(final(self)),
            final(self).weights_view() == backpropagated_weights(
                old(self).activation_spec(),
                old(self).rate(),
                old(self).weights_view(),
                old(self).biases_view(),
                x@,
                error@,
            ),
            final(self).biases_view() == backpropagated_biases(
                old(self).activation_spec(),
                old(self).rate(),
                old(self).weights_view(),
                old(self).biases_view(),
                x@,
                error@,
            ),
    {
        let ghost before = *self;
        let ghost act = self.activation;
        let ghost ws = self.weights_view();
        let ghost bs = self.biases_view();
        let ghost x0 = x@;
        let ghost width = x.width();
        let n = self.weights.len();

        let mut activations: Vec<Matrix<T>> = Vec::new();
        let mut zs: Vec<Matrix<T>> = Vec::new();
        activations.push(x);
        let mut i: usize = 0;
        while i < n
            invariant
                0 <= i <= n,
                n == self.weights@.len(),
                *self == before,
                self.wf(),
                act == self.activation_spec(),
                ws == self.weights_view(),
                bs == self.biases_view(),
                self.takes(width),
                activations@.len() == i + 1,
                zs@.len() == i,
                forall|k: int|
                    0 <= k <= i ==> {
                        &&& (#[trigger] activations@[k]).wf()
                        &&& activations@[k]@.len() == x0.len()
                        &&& activations@[k].width() == (if k == 0 {
                            width
                        } else {
                            self.shapes()[k - 1].1
                        })
                        &&& activations@[k]@ == activation_at(act, ws, bs, x0, k as nat)
                    },
                forall|k: int|
                    0 <= k < i ==> {
                        &&& (#[trigger] zs@[k]).wf()
                        &&& zs@[k]@.len() == x0.len()
                        &&& zs@[k].width() == self.shapes()[k].1
                        &&& zs@[k]@ == pre_activation_at(act, ws, bs, x0, k as nat)
                    },
            decreases n - i,
        {
            proof {
                self.layer_facts(i as int);
                assert(activations@[i as int].wf());
                if i > 0 {
                    assert(self.shapes()[i - 1].1 == self.shapes()[i as int].0);
                }
            }
            let z = activations[i].dot(&self.weights[i]).add_row(&self.biases[i]);
            let a = activate(&self.activation, &z);
            activations.push(a);
            zs.push(z);
            i += 1;
        }
        proof {
            assert(views(activations@) =~= activations_of(act, ws, bs, x0));
            assert(views(zs@) =~= pre_activations_of(act, ws, bs, x0));
            assert(activations@[0].wf());
            assert forall|k: int| 0 <= k < n implies {
                &&& (#[trigger] self.weights@[k]).wf()
                &&& self.weights@[k].width() == self.biases@[k]@.len()
            } by {
                self.layer_facts(k);
            }
            assert forall|k: int| 0 <= k < n implies {
                &&& (#[trigger] activations@[k]).wf()
                &&& activations@[k].width() == self.weights@[k]@.len()
                &&& activations@[k]@.len() == activations@[0]@.len()
            } by {
                self.layer_facts(k);
                if k > 0 {
                    assert(self.shapes()[k - 1].1 == self.shapes()[k].0);
                }
            }
            assert forall|k: int| 0 <= k < n implies {
                &&& (#[trigger] zs@[k]).wf()
                &&& zs@[k].width() == self.weights@[k].width()
                &&& zs@[k]@.len() == activations@[0]@.len()
            } by {
                self.layer_facts(k);
            }
            assert forall|k: int| 0 <= k < n - 1 implies (#[trigger] self.weights@[k]).width()
                == self.weights@[k + 1]@.len() by {
                self.layer_facts(k);
                self.layer_facts(k + 1);
                assert(self.shapes()[k].1 == self.shapes()[k + 1].0);
            }
            if n > 0 {
                self.layer_facts(n - 1);
            }
        }
        let sgd = SGD::new(self.learning_rate);
        sgd.minimize(
            &mut self.weights,
            &mut self.biases,
            &activations,
            &zs,
            &error,
            &self.activation,
        );
        proof {
            assert(self.shapes() =~= before.shapes());
            assert forall|k: int| 0 <= k < self.shapes().len() implies {
                &&& (#[trigger] self.weights_view()[k]).len() == self.shapes()[k].0
                &&& rectangular(self.weights_view()[k], self.shapes()[k].1)
            } by {
                assert(self.weights@[k].wf());
            }
            assert forall|k: int| 0 <= k < self.shapes().len() implies (
            #[trigger] self.biases_view()[k]).len() == self.shapes()[k].1 by {
                before.layer_facts(k);
                assert(self.biases@[k]@.len() == before.biases@[k]@.len());
            }
            assert forall|k: int| 0 <= k < self.shapes().len() - 1 implies (
            #[trigger] self.shapes()[k]).1 == self.shapes()[k + 1].0 by {
                assert(before.shapes()[k].1 == before.shapes()[k + 1].0);
            }
        }
    }

    /// Prediction is a function of the parameters and the input: two models
    /// with the same activation and the same weights and biases make the
    /// same output of the same batch.
    pub proof fn lemma_predict_deterministic(&self, other: &Self, x: Seq<Seq<T>>, y: Seq<Seq<T>>)
        requires
            self.activation_spec() == other.activation_spec(),
            self.weights_view() == other.weights_view(),
            self.biases_view() == other.biases_view(),
            x == y,
        ensures
            self.prediction(x) == other.prediction(y),
    {
    }

    /// The forward pass that training keeps a trace of is the computation
    /// that prediction makes: the last activation of the trace is the
    /// prediction, and its first is the batch itself.
    pub proof fn lemma_trace_ends_in_prediction(&self, x: Seq<Seq<T>>)
        ensures
            activations_of(
                self.activation_spec(),
                self.weights_view(),
                self.biases_view(),
                x,
            ).last() == self.prediction(x),
            activations_of(self.activation_spec(), self.weights_view(), self.biases_view(), x)[0]
                == x,
    {
    }

    /// A model without layers hands every batch on unchanged.
    pub proof fn lemma_no_layers_is_identity(&self, x: Seq<Seq<T>>)
        requires
            self.weights_view().len() == 0,
        ensures
            self.prediction(x) == x,
    {
    }

    /// What well-formedness says of layer `i`, in terms of the fields.
    proof fn layer_facts(&self, i: int)
        requires
            self.wf(),
            0 <= i < self.shapes().len(),
        ensures
            self.weights@.len() == self.shapes().len(),
            self.biases@.len() == self.shapes().len(),
            self.weights@[i].wf(),
            self.weights@[i]@ == self.weights_view()[i],
            self.biases@[i]@ == self.biases_view()[i],
            self.weights@[i]@.len() == self.shapes()[i].0,
            self.weights@[i].width() == self.shapes()[i].1,
            self.biases@[i]@.len() == self.shapes()[i].1,
    {
        assert(self.weights_view()[i].len() == self.shapes()[i].0);
        assert(self.biases_view()[i].len() == self.shapes()[i].1);
    }
}

impl<A, L, T> Model<A, L, T> where A: Activation<T> + Default, L: Loss<T> + Default, T: Scalar {
    /// A model without layers that trains at the given learning rate, in
    /// mini-batches of 32 rows.
    pub fn new(learning_rate: T) -> (r: Self)
        ensures
            r.wf(),
            r.shapes().len() == 0,
            r.weights_view().len() == 0,
            r.biases_view().len() == 0,
            r.batch() == 32,
            r.rate() == learning_rate,
            call_ensures(A::default, (), r.activation_spec()),
            call_ensures(L::default, (), r.loss_spec()),
    {
        Self {
            weights: Vec::new(),
            biases: Vec::new(),
            activation: A::default(),
            loss: L::default(),
            batch_size: 32,
            learning_rate,
        }
    }
}

} // verus!
