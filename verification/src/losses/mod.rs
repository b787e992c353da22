//! Loss functions: what turns a batch of targets and a batch of predictions
//! into the error signal that the backward pass starts from.

mod mse;

use crate::matrix::Matrix;
use crate::scalar::Scalar;
pub use mse::{mean_error, squared_error, MeanSquaredError};
use vstd::prelude::*;

verus! {

/// A loss, by the error signal that it gives for a batch.
pub trait Loss<T: Scalar> {
    /// The error of each of the `width` output columns, for targets `y_true`
    /// and predictions `y_pred` of as many rows.
    spec fn get_spec(&self, y_true: Seq<Seq<T>>, y_pred: Seq<Seq<T>>, width: nat) -> Seq<T>;

    /// The error signal of a batch: one entry for each output column.
    fn get(&self, y_true: &Matrix<T>, y_pred: &Matrix<T>) -> (r: Vec<T>)
        requires
            y_true.wf(),
            y_pred.wf(),
            y_true@.len() == y_pred@.len(),
            y_true.width() == y_pred.width(),
        ensures
            r@.len() == y_pred.width(),
            r@ == self.get_spec(y_true@, y_pred@, y_pred.width()),
    ;
}

} // verus!
