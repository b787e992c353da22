//! Activation functions: a function of one scalar and its derivative,
//! applied to every entry of a batch.

use crate::matrix::{grid, Matrix};
use crate::scalar::Scalar;
use vstd::prelude::*;

verus! {

/// A function of one scalar with its derivative. Both are applied entry by
/// entry: the shape of a batch stays as it is.
pub trait Activation<T: Scalar> {
    /// The activation of one pre-activation value.
    spec fn apply_spec(&self, x: T) -> T;

    /// The derivative of the activation at one pre-activation value.
    spec fn deriv_spec(&self, x: T) -> T;

    /// Applies the activation to every entry of the batch.
    fn call(&self, a: &Matrix<T>) -> (r: Matrix<T>)
        requires
            a.wf(),
        ensures
            r.wf(),
            r.width() == a.width(),
            r@.len() == a@.len(),
            forall|i: int, j: int|
                0 <= i < a@.len() && 0 <= j < a.width() ==> #[trigger] r@[i][j]
                    == self.apply_spec(a@[i][j]),
    ;

    /// Takes the derivative of the activation at every entry of the batch.
    fn call_deriv(&self, a: &Matrix<T>) -> (r: Matrix<T>)
        requires
            a.wf(),
        ensures
            r.wf(),
            r.width() == a.width(),
            r@.len() == a@.len(),
            forall|i: int, j: int|
                0 <= i < a@.len() && 0 <= j < a.width() ==> #[trigger] r@[i][j]
                    == self.deriv_spec(a@[i][j]),
    ;
}

/// `m` with `act` applied to every entry.
pub open spec fn activated<T: Scalar, A: Activation<T>>(act: A, m: Seq<Seq<T>>) -> Seq<Seq<T>> {
    Seq::new(m.len(), |i: int| Seq::new(m[i].len(), |j: int| act.apply_spec(m[i][j])))
}

/// `m` with the derivative of `act` taken at every entry.
pub open spec fn derived<T: Scalar, A: Activation<T>>(act: A, m: Seq<Seq<T>>) -> Seq<Seq<T>> {
    Seq::new(m.len(), |i: int| Seq::new(m[i].len(), |j: int| act.deriv_spec(m[i][j])))
}

/// Applies `act` to every entry of the batch.
pub fn activate<T: Scalar, A: Activation<T>>(act: &A, a: &Matrix<T>) -> (r: Matrix<T>)
    requires
        a.wf(),
    ensures
        r.wf(),
        r.width() == a.width(),
        r@ == activated(*act, a@),
{
    let r = act.call(a);
    proof {
        assert forall|i: int| 0 <= i < a@.len() implies #[trigger] r@[i] == activated(
            *act,
            a@,
        )[i] by {
            assert(r@[i].len() == a.width());
            assert(a@[i].len() == a.width());
            assert forall|j: int| 0 <= j < a.width() implies #[trigger] r@[i][j] == activated(
                *act,
                a@,
            )[i][j] by {}
            assert(r@[i] =~= activated(*act, a@)[i]);
        }
        assert(r@ =~= activated(*act, a@));
    }
    r
}

/// Takes the derivative of `act` at every entry of the batch.
pub fn differentiate<T: Scalar, A: Activation<T>>(act: &A, a: &Matrix<T>) -> (r: Matrix<T>)
    requires
        a.wf(),
    ensures
        r.wf(),
        r.width() == a.width(),
        r@ == derived(*act, a@),
{
    let r = act.call_deriv(a);
    proof {
        assert forall|i: int| 0 <= i < a@.len() implies #[trigger] r@[i] == derived(
            *act,
            a@,
        )[i] by {
            assert(r@[i].len() == a.width());
            assert(a@[i].len() == a.width());
            assert forall|j: int| 0 <= j < a.width() implies #[trigger] r@[i][j] == derived(
                *act,
                a@,
            )[i][j] by {}
            assert(r@[i] =~= derived(*act, a@)[i]);
        }
        assert(r@ =~= derived(*act, a@));
    }
    r
}

/// Rectified linear unit: the identity on values that zero is less than or
/// equal to, and zero on every other value, also on one that cannot be
/// compared with zero.
pub struct Relu;

/// The rectified value of `x`.
pub open spec fn relu<T: Scalar>(x: T) -> T {
    if T::zero_spec().le_spec(x) {
        x
    } else {
        T::zero_spec()
    }
}

/// The slope of the rectifier at `x`: one where zero is less than or equal
/// to `x`, zero elsewhere.
pub open spec fn relu_slope<T: Scalar>(x: T) -> T {
    if T::zero_spec().le_spec(x) {
        T::one_spec()
    } else {
        T::zero_spec()
    }
}

/// `m` with every entry rectified.
spec fn rectified<T: Scalar>(m: Seq<Seq<T>>) -> Seq<Seq<T>> {
    Seq::new(m.len(), |i: int| Seq::new(m[i].len(), |j: int| relu(m[i][j])))
}

/// The slope of the rectifier at every entry of `m`.
spec fn slopes<T: Scalar>(m: Seq<Seq<T>>) -> Seq<Seq<T>> {
    Seq::new(m.len(), |i: int| Seq::new(m[i].len(), |j: int| relu_slope(m[i][j])))
}

impl<T: Scalar> Activation<T> for Relu {
    open spec fn apply_spec(&self, x: T) -> T {
        relu(x)
    }

    open spec fn deriv_spec(&self, x: T) -> T {
        relu_slope(x)
    }

    fn call(&self, a: &Matrix<T>) -> (r: Matrix<T>) {
        let n = a.nrows();
        let cols = a.ncols();
        let mut rows: Vec<Vec<T>> = Vec::new();
        let mut i: usize = 0;
        while i < n
            invariant
                i <= n,
                a.wf(),
                n == a@.len(),
                cols == a.width(),
                rows@.len() == i,
                forall|r: int| 0 <= r < i ==> (#[trigger] rows@[r])@ == rectified(a@)[r],
            decreases n - i,
        {
            let src = a.row(i);
            assert(a@[i as int].len() == cols);
            let mut row: Vec<T> = Vec::new();
            let mut j: usize = 0;
            while j < cols
                invariant
                    j <= cols,
                    i < n,
                    n == a@.len(),
                    src@ == a@[i as int],
                    src@.len() == cols,
                    row@ == rectified(a@)[i as int].take(j as int),
                decreases cols - j,
            {
                let x = src[j];
                let y = if T::zero().le(x) {
                    x
                } else {
                    T::zero()
                };
                row.push(y);
                j += 1;
            }
            rows.push(row);
            i += 1;
        }
        proof {
            assert(grid(rows@) =~= rectified(a@));
            assert forall|r: int| 0 <= r < rows@.len() implies (#[trigger] grid(rows@)[r]).len()
                == cols by {
                assert(a@[r].len() == cols);
            }
        }
        Matrix::from_rows(cols, rows).unwrap()
    }

    fn call_deriv(&self, a: &Matrix<T>) -> (r: Matrix<T>) {
        let n = a.nrows();
        let cols = a.ncols();
        let mut rows: Vec<Vec<T>> = Vec::new();
        let mut i: usize = 0;
        while i < n
            invariant
                i <= n,
                a.wf(),
                n == a@.len(),
                cols == a.width(),
                rows@.len() == i,
                forall|r: int| 0 <= r < i ==> (#[trigger] rows@[r])@ == slopes(a@)[r],
            decreases n - i,
        {
            let src = a.row(i);
            assert(a@[i as int].len() == cols);
            let mut row: Vec<T> = Vec::new();
            let mut j: usize = 0;
            while j < cols
                invariant
                    j <= cols,
                    i < n,
                    n == a@.len(),
                    src@ == a@[i as int],
                    src@.len() == cols,
                    row@ == slopes(a@)[i as int].take(j as int),
                decreases cols - j,
            {
                let y = if T::zero().le(src[j]) {
                    T::one()
                } else {
                    T::zero()
                };
                row.push(y);
                j += 1;
            }
            rows.push(row);
            i += 1;
        }
        proof {
            assert(grid(rows@) =~= slopes(a@));
            assert forall|r: int| 0 <= r < rows@.len() implies (#[trigger] grid(rows@)[r]).len()
                == cols by {
                assert(a@[r].len() == cols);
            }
        }
        Matrix::from_rows(cols, rows).unwrap()
    }
}

impl Default for Relu {
    fn default() -> (r: Self)
        ensures
            r == Relu,
    {
        Self
    }
}

} // verus!
