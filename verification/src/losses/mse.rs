use super::Loss;
use crate::matrix::{col_sums, mat_sub, seq_sub, sum_prefix, Matrix};
use crate::scalar::Scalar;
use vstd::prelude::*;

verus! {

/// The error signal of the squared-error loss: for each output column, the
/// differences between prediction and target summed over the rows of the
/// batch and divided by the number of columns.
pub struct MeanSquaredError;

/// For each of the `width` columns, the sum over the rows of
/// `y_pred - y_true`, divided by `width`.
pub open spec fn mean_error<T: Scalar>(
    y_true: Seq<Seq<T>>,
    y_pred: Seq<Seq<T>>,
    width: nat,
) -> Seq<T> {
    Seq::new(
        width,
        |j: int|
            col_sums(mat_sub(y_pred, y_true), width)[j].div_spec(
                T::from_count_spec(width as usize),
            ),
    )
}

/// The loss of one row of `n` outputs: the differences between prediction
/// and target summed, the sum squared and divided by `n`.
pub open spec fn squared_error<T: Scalar>(y_true: Seq<T>, y_pred: Seq<T>) -> T {
    let total = sum_prefix(seq_sub(y_pred, y_true), y_pred.len());
    total.mul_spec(total).div_spec(T::from_count_spec(y_pred.len() as usize))
}

impl MeanSquaredError {
    /// The loss of one prediction against its target.
    pub fn row_loss<T: Scalar>(&self, y_true: &[T], y_pred: &[T]) -> (r: T)
        requires
            y_true@.len() == y_pred@.len(),
        ensures
            r == squared_error(y_true@, y_pred@),
    {
        let n = y_pred.len();
        let mut total = T::zero();
        let mut j: usize = 0;
        while j < n
            invariant
                j <= n,
                n == y_pred@.len(),
                n == y_true@.len(),
                total == sum_prefix(seq_sub(y_pred@, y_true@), j as nat),
            decreases n - j,
        {
            total = total.add(y_pred[j].sub(y_true[j]));
            j += 1;
        }
        total.mul(total).div(T::from_count(n))
    }
}

impl<T: Scalar> Loss<T> for MeanSquaredError {
    open spec fn get_spec(&self, y_true: Seq<Seq<T>>, y_pred: Seq<Seq<T>>, width: nat) -> Seq<T> {
        mean_error(y_true, y_pred, width)
    }

    fn get(&self, y_true: &Matrix<T>, y_pred: &Matrix<T>) -> (r: Vec<T>) {
        let diff = y_pred.subtract(y_true);
        let sums = diff.column_sums();
        let count = T::from_count(y_pred.ncols());
        let mut errors: Vec<T> = Vec::new();
        let mut j: usize = 0;
        while j < sums.len()
            invariant
                j <= sums.len(),
                sums@.len() == y_pred.width(),
                count == T::from_count_spec(y_pred.width() as usize),
                sums@ == col_sums(mat_sub(y_pred@, y_true@), y_pred.width()),
                errors@ == mean_error(y_true@, y_pred@, y_pred.width()).take(j as int),
            decreases sums.len() - j,
        {
            errors.push(sums[j].div(count));
            j += 1;
        }
        errors
    }
}

impl Default for MeanSquaredError {
    fn default() -> (r: Self)
        ensures
            r == MeanSquaredError,
    {
        Self
    }
}

} // verus!
