//! Batches and weight matrices, with the linear algebra that the forward and
//! backward passes are made of.
//!
//! A [`Matrix`] is modelled as its sequence of rows together with a width, so
//! that a batch of no rows still has a number of columns. Every operation is
//! stated against a specification function on sequences; sums run from the
//! first term to the last, starting at zero.

use crate::scalar::Scalar;
use vstd::prelude::*;

verus! {

/// `a[0] * b[0] + ... + a[n - 1] * b[n - 1]`, summed left to right from zero.
pub open spec fn dot_prefix<T: Scalar>(a: Seq<T>, b: Seq<T>, n: nat) -> T
    decreases n,
{
    if n == 0 {
        T::zero_spec()
    } else {
        dot_prefix(a, b, (n - 1) as nat).add_spec(a[n - 1].mul_spec(b[n - 1]))
    }
}

/// `s[0] + ... + s[n - 1]`, summed left to right from zero.
pub open spec fn sum_prefix<T: Scalar>(s: Seq<T>, n: nat) -> T
    decreases n,
{
    if n == 0 {
        T::zero_spec()
    } else {
        sum_prefix(s, (n - 1) as nat).add_spec(s[n - 1])
    }
}

/// Column `j` of the rows `m`, top to bottom.
pub open spec fn column<T>(m: Seq<Seq<T>>, j: int) -> Seq<T> {
    Seq::new(m.len(), |i: int| m[i][j])
}

/// Whether every row of `m` has `width` entries.
pub open spec fn rectangular<T>(m: Seq<Seq<T>>, width: nat) -> bool {
    forall|i: int| 0 <= i < m.len() ==> (#[trigger] m[i]).len() == width
}

/// The rows of `data` read row by row, `cols` entries to a row.
pub open spec fn unflatten<T>(data: Seq<T>, rows: nat, cols: nat) -> Seq<Seq<T>> {
    Seq::new(rows, |i: int| data.subrange(i * cols, i * cols + cols))
}

/// The matrix product `a * b`, where `b` has `width` columns.
pub open spec fn mat_mul<T: Scalar>(a: Seq<Seq<T>>, b: Seq<Seq<T>>, width: nat) -> Seq<Seq<T>> {
    Seq::new(
        a.len(),
        |i: int| Seq::new(width, |j: int| dot_prefix(a[i], column(b, j), b.len())),
    )
}

/// The transpose of `m`, which has `width` columns.
pub open spec fn transpose<T>(m: Seq<Seq<T>>, width: nat) -> Seq<Seq<T>> {
    Seq::new(width, |j: int| column(m, j))
}

/// The entry-by-entry sum `a + b` of two vectors.
pub open spec fn seq_add<T: Scalar>(a: Seq<T>, b: Seq<T>) -> Seq<T> {
    Seq::new(a.len(), |j: int| a[j].add_spec(b[j]))
}

/// The entry-by-entry difference `a - b` of two vectors.
pub open spec fn seq_sub<T: Scalar>(a: Seq<T>, b: Seq<T>) -> Seq<T> {
    Seq::new(a.len(), |j: int| a[j].sub_spec(b[j]))
}

/// The entry-by-entry product `a * b` of two vectors.
pub open spec fn seq_mul<T: Scalar>(a: Seq<T>, b: Seq<T>) -> Seq<T> {
    Seq::new(a.len(), |j: int| a[j].mul_spec(b[j]))
}

/// Every entry of `v` multiplied, from the right, by `s`.
pub open spec fn seq_scale<T: Scalar>(v: Seq<T>, s: T) -> Seq<T> {
    Seq::new(v.len(), |j: int| v[j].mul_spec(s))
}

/// `m` with the vector `v` added to each of its rows.
pub open spec fn add_row<T: Scalar>(m: Seq<Seq<T>>, v: Seq<T>) -> Seq<Seq<T>> {
    Seq::new(m.len(), |i: int| seq_add(m[i], v))
}

/// Each row of `m` multiplied entry by entry, from the left, by the vector `v`.
pub open spec fn mul_row<T: Scalar>(v: Seq<T>, m: Seq<Seq<T>>) -> Seq<Seq<T>> {
    Seq::new(m.len(), |i: int| seq_mul(v, m[i]))
}

/// The entry-by-entry product of `a` and `b`.
pub open spec fn hadamard<T: Scalar>(a: Seq<Seq<T>>, b: Seq<Seq<T>>) -> Seq<Seq<T>> {
    Seq::new(a.len(), |i: int| seq_mul(a[i], b[i]))
}

/// The entry-by-entry difference `a - b`.
pub open spec fn mat_sub<T: Scalar>(a: Seq<Seq<T>>, b: Seq<Seq<T>>) -> Seq<Seq<T>> {
    Seq::new(a.len(), |i: int| seq_sub(a[i], b[i]))
}

/// Every entry of `m` multiplied, from the right, by `s`.
pub open spec fn scale<T: Scalar>(m: Seq<Seq<T>>, s: T) -> Seq<Seq<T>> {
    Seq::new(m.len(), |i: int| seq_scale(m[i], s))
}

/// The sum of each of the `width` columns of `m`.
pub open spec fn col_sums<T: Scalar>(m: Seq<Seq<T>>, width: nat) -> Seq<T> {
    Seq::new(width, |j: int| sum_prefix(column(m, j), m.len()))
}

/// The mean of each of the `width` columns of `m`: its sum divided by the
/// number of rows.
pub open spec fn col_means<T: Scalar>(m: Seq<Seq<T>>, width: nat) -> Seq<T> {
    Seq::new(
        width,
        |j: int| sum_prefix(column(m, j), m.len()).div_spec(T::from_count_spec(m.len() as usize)),
    )
}

/// The views of the rows held in `rows`.
pub open spec fn grid<T>(rows: Seq<Vec<T>>) -> Seq<Seq<T>> {
    Seq::new(rows.len(), |i: int| rows[i]@)
}

/// A copy of `v`.
pub fn vec_copy<T: Copy>(v: &Vec<T>) -> (r: Vec<T>)
    ensures
        r@ == v@,
{
    let mut r: Vec<T> = Vec::new();
    let mut j: usize = 0;
    while j < v.len()
        invariant
            j <= v.len(),
            r@ == v@.take(j as int),
        decreases v.len() - j,
    {
        r.push(v[j]);
        j += 1;
    }
    r
}

pub fn vec_add<T: Scalar>(a: &Vec<T>, b: &Vec<T>) -> (r: Vec<T>)
    requires
        a.len() == b.len(),
    ensures
        r@ == seq_add(a@, b@),
{
    let mut r: Vec<T> = Vec::new();
    let mut j: usize = 0;
    while j < a.len()
        invariant
            j <= a.len(),
            a.len() == b.len(),
            r@ == seq_add(a@, b@).take(j as int),
        decreases a.len() - j,
    {
        r.push(a[j].add(b[j]));
        j += 1;
    }
    r
}

pub fn vec_sub<T: Scalar>(a: &Vec<T>, b: &Vec<T>) -> (r: Vec<T>)
    requires
        a.len() == b.len(),
    ensures
        r@ == seq_sub(a@, b@),
{
    let mut r: Vec<T> = Vec::new();
    let mut j: usize = 0;
    while j < a.len()
        invariant
            j <= a.len(),
            a.len() == b.len(),
            r@ == seq_sub(a@, b@).take(j as int),
        decreases a.len() - j,
    {
        r.push(a[j].sub(b[j]));
        j += 1;
    }
    r
}

pub fn vec_mul<T: Scalar>(a: &Vec<T>, b: &Vec<T>) -> (r: Vec<T>)
    requires
        a.len() == b.len(),
    ensures
        r@ == seq_mul(a@, b@),
{
    let mut r: Vec<T> = Vec::new();
    let mut j: usize = 0;
    while j < a.len()
        invariant
            j <= a.len(),
            a.len() == b.len(),
            r@ == seq_mul(a@, b@).take(j as int),
        decreases a.len() - j,
    {
        r.push(a[j].mul(b[j]));
        j += 1;
    }
    r
}

pub fn vec_scale<T: Scalar>(v: &Vec<T>, s: T) -> (r: Vec<T>)
    ensures
        r@ == seq_scale(v@, s),
{
    let mut r: Vec<T> = Vec::new();
    let mut j: usize = 0;
    while j < v.len()
        invariant
            j <= v.len(),
            r@ == seq_scale(v@, s).take(j as int),
        decreases v.len() - j,
    {
        r.push(v[j].mul(s));
        j += 1;
    }
    r
}

/// A rectangle of scalars, held row by row.
#[derive(Clone, Debug, PartialEq)]
pub struct Matrix<T> {
    cols: usize,
    rows: Vec<Vec<T>>,
}

impl<T> View for Matrix<T> {
    type V = Seq<Seq<T>>;

    closed spec fn view(&self) -> Seq<Seq<T>> {
        grid(self.rows@)
    }
}

impl<T> Matrix<T> {
    /// The number of columns, also of a matrix without rows.
    pub closed spec fn width(&self) -> nat {
        self.cols as nat
    }

    /// Every row is as long as the matrix is wide.
    pub open spec fn wf(&self) -> bool {
        rectangular(self@, self.width())
    }

    pub fn nrows(&self) -> (n: usize)
        ensures
            n == self@.len(),
    {
        self.rows.len()
    }

    pub fn ncols(&self) -> (n: usize)
        ensures
            n == self.width(),
    {
        self.cols
    }
}

impl<T: Copy> Matrix<T> {
    /// The matrix of the given shape whose entries are `data`, read row by
    /// row; `None` where `data` does not hold exactly `rows * cols` entries.
    pub fn from_shape_vec(shape: (usize, usize), data: Vec<T>) -> (r: Option<Self>)
        ensures
            r is Some <==> data@.len() == shape.0 * shape.1,
            r matches Some(m) ==> {
                &&& m.wf()
                &&& m.width() == shape.1
                &&& m@ == unflatten(data@, shape.0 as nat, shape.1 as nat)
            },
    {
        let (n, cols) = shape;
        let len = data.len();
        match n.checked_mul(cols) {
            None => None,
            Some(total) => {
                if len != total {
                    return None;
                }
                let mut rows: Vec<Vec<T>> = Vec::new();
                let mut k: usize = 0;
                let mut i: usize = 0;
                while i < n
                    invariant
                        i <= n,
                        k == i * cols,
                        total == n * cols,
                        data@.len() == total,
                        rows@.len() == i,
                        forall|r: int| 0 <= r < i ==> (#[trigger] rows@[r])@.len() == cols,
                        forall|r: int|
                            0 <= r < i ==> (#[trigger] rows@[r])@ == unflatten(
                                data@,
                                n as nat,
                                cols as nat,
                            )[r],
                    decreases n - i,
                {
                    proof {
                        assert(i * cols + cols <= n * cols) by (nonlinear_arith)
                            requires
                                i < n,
                        ;
                    }
                    let mut row: Vec<T> = Vec::new();
                    let mut j: usize = 0;
                    while j < cols
                        invariant
                            j <= cols,
                            k == i * cols,
                            k + cols <= data@.len() <= usize::MAX,
                            row@ == data@.subrange(k as int, k + j),
                        decreases cols - j,
                    {
                        row.push(data[k + j]);
                        j += 1;
                    }
                    rows.push(row);
                    proof {
                        assert((i + 1) * cols == i * cols + cols) by (nonlinear_arith);
                    }
                    k += cols;
                    i += 1;
                }
                let m = Matrix { cols, rows };
                proof {
                    assert(m@ =~= unflatten(data@, n as nat, cols as nat));
                    assert forall|r: int| 0 <= r < m@.len() implies (#[trigger] m@[r]).len()
                        == cols by {
                        assert(m@[r] == rows@[r]@);
                    }
                }
                Some(m)
            },
        }
    }

    /// The entry in row `i` and column `j`.
    pub fn get(&self, i: usize, j: usize) -> (x: T)
        requires
            self.wf(),
            i < self@.len(),
            j < self.width(),
        ensures
            x == self@[i as int][j as int],
    {
        assert(self@[i as int].len() == self.width());
        self.rows[i][j]
    }
}

impl<T: Copy> Matrix<T> {
    /// The matrix with the given rows, each of `cols` entries; `None` where
    /// some row has another length.
    pub fn from_rows(cols: usize, rows: Vec<Vec<T>>) -> (r: Option<Self>)
        ensures
            r is Some <==> rectangular(grid(rows@), cols as nat),
            r matches Some(m) ==> m.wf() && m.width() == cols && m@ == grid(rows@),
    {
        let mut i: usize = 0;
        while i < rows.len()
            invariant
                i <= rows.len(),
                forall|r: int| 0 <= r < i ==> (#[trigger] grid(rows@)[r]).len() == cols,
            decreases rows.len() - i,
        {
            if rows[i].len() != cols {
                assert(grid(rows@)[i as int].len() != cols);
                return None;
            }
            i += 1;
        }
        Some(Matrix { cols, rows })
    }

    /// Row `i`.
    pub fn row(&self, i: usize) -> (r: &Vec<T>)
        requires
            i < self@.len(),
        ensures
            r@ == self@[i as int],
    {
        &self.rows[i]
    }

    /// A copy of the matrix.
    pub fn copy(&self) -> (r: Self)
        ensures
            r@ == self@,
            r.width() == self.width(),
            self.wf() ==> r.wf(),
    {
        let n = self.rows.len();
        self.slice_rows(0, n)
    }

    /// The rows from `lo` up to, not including, `hi`.
    pub fn slice_rows(&self, lo: usize, hi: usize) -> (r: Self)
        requires
            lo <= hi <= self@.len(),
        ensures
            r@ == self@.subrange(lo as int, hi as int),
            r.width() == self.width(),
            self.wf() ==> r.wf(),
    {
        let mut rows: Vec<Vec<T>> = Vec::new();
        let mut i: usize = lo;
        while i < hi
            invariant
                lo <= i <= hi <= self.rows@.len(),
                rows@.len() == i - lo,
                forall|r: int| 0 <= r < i - lo ==> (#[trigger] rows@[r])@ == self.rows@[lo + r]@,
            decreases hi - i,
        {
            rows.push(vec_copy(&self.rows[i]));
            i += 1;
        }
        let m = Matrix { cols: self.cols, rows };
        proof {
            assert(m@ =~= self@.subrange(lo as int, hi as int));
        }
        m
    }

    /// The transpose.
    pub fn t(&self) -> (r: Self)
        requires
            self.wf(),
        ensures
            r.wf(),
            r.width() == self@.len(),
            r@ == transpose(self@, self.width()),
    {
        let n = self.rows.len();
        let mut rows: Vec<Vec<T>> = Vec::new();
        let mut j: usize = 0;
        while j < self.cols
            invariant
                j <= self.cols,
                self.wf(),
                n == self.rows@.len(),
                rows@.len() == j,
                forall|c: int| 0 <= c < j ==> (#[trigger] rows@[c])@ == column(self@, c),
            decreases self.cols - j,
        {
            let mut col: Vec<T> = Vec::new();
            let mut i: usize = 0;
            while i < n
                invariant
                    i <= n,
                    j < self.cols,
                    self.wf(),
                    n == self.rows@.len(),
                    col@ == column(self@, j as int).take(i as int),
                decreases n - i,
            {
                assert(self@[i as int].len() == self.width());
                col.push(self.rows[i][j]);
                i += 1;
            }
            rows.push(col);
            j += 1;
        }
        let m = Matrix { cols: n, rows };
        proof {
            assert(m@ =~= transpose(self@, self.width()));
        }
        m
    }
}

impl<T: Scalar> Matrix<T> {
    /// The matrix product `self * rhs`.
    pub fn dot(&self, rhs: &Matrix<T>) -> (r: Self)
        requires
            self.wf(),
            rhs.wf(),
            self.width() == rhs@.len(),
        ensures
            r.wf(),
            r.width() == rhs.width(),
            r@ == mat_mul(self@, rhs@, rhs.width()),
    {
        let n = self.rows.len();
        let inner = rhs.rows.len();
        let mut rows: Vec<Vec<T>> = Vec::new();
        let mut i: usize = 0;
        while i < n
            invariant
                i <= n,
                self.wf(),
                rhs.wf(),
                n == self.rows@.len(),
                inner == rhs.rows@.len(),
                self.width() == inner,
                rows@.len() == i,
                forall|r: int|
                    0 <= r < i ==> (#[trigger] rows@[r])@ == mat_mul(self@, rhs@, rhs.width())[r],
            decreases n - i,
        {
            let mut row: Vec<T> = Vec::new();
            let mut j: usize = 0;
            while j < rhs.cols
                invariant
                    j <= rhs.cols,
                    i < n,
                    self.wf(),
                    rhs.wf(),
                    n == self.rows@.len(),
                    inner == rhs.rows@.len(),
                    self.width() == inner,
                    row@ == mat_mul(self@, rhs@, rhs.width())[i as int].take(j as int),
                decreases rhs.cols - j,
            {
                let mut acc = T::zero();
                let mut k: usize = 0;
                while k < inner
                    invariant
                        k <= inner,
                        i < n,
                        j < rhs.cols,
                        self.wf(),
                        rhs.wf(),
                        n == self.rows@.len(),
                        inner == rhs.rows@.len(),
                        self.width() == inner,
                        acc == dot_prefix(self@[i as int], column(rhs@, j as int), k as nat),
                    decreases inner - k,
                {
                    assert(self@[i as int].len() == self.width());
                    assert(rhs@[k as int].len() == rhs.width());
                    acc = acc.add(self.rows[i][k].mul(rhs.rows[k][j]));
                    k += 1;
                }
                row.push(acc);
                j += 1;
            }
            rows.push(row);
            i += 1;
        }
        let m = Matrix { cols: rhs.cols, rows };
        proof {
            assert(m@ =~= mat_mul(self@, rhs@, rhs.width()));
        }
        m
    }

    /// The matrix with `v` added to each row.
    pub fn add_row(&self, v: &Vec<T>) -> (r: Self)
        requires
            self.wf(),
            v@.len() == self.width(),
        ensures
            r.wf(),
            r.width() == self.width(),
            r@ == add_row(self@, v@),
    {
        let n = self.rows.len();
        let mut rows: Vec<Vec<T>> = Vec::new();
        let mut i: usize = 0;
        while i < n
            invariant
                i <= n,
                self.wf(),
                v@.len() == self.width(),
                n == self.rows@.len(),
                rows@.len() == i,
                forall|r: int| 0 <= r < i ==> (#[trigger] rows@[r])@ == add_row(self@, v@)[r],
            decreases n - i,
        {
            assert(self@[i as int].len() == self.width());
            rows.push(vec_add(&self.rows[i], v));
            i += 1;
        }
        let m = Matrix { cols: self.cols, rows };
        proof {
            assert(m@ =~= add_row(self@, v@));
            assert forall|r: int| 0 <= r < m@.len() implies (#[trigger] m@[r]).len()
                == m.width() by {
                assert(self@[r].len() == self.width());
            }
        }
        m
    }

    /// The matrix with each row multiplied entry by entry, from the left, by
    /// `v`.
    pub fn mul_row(&self, v: &Vec<T>) -> (r: Self)
        requires
            self.wf(),
            v@.len() == self.width(),
        ensures
            r.wf(),
            r.width() == self.width(),
            r@ == mul_row(v@, self@),
    {
        let n = self.rows.len();
        let mut rows: Vec<Vec<T>> = Vec::new();
        let mut i: usize = 0;
        while i < n
            invariant
                i <= n,
                self.wf(),
                v@.len() == self.width(),
                n == self.rows@.len(),
                rows@.len() == i,
                forall|r: int| 0 <= r < i ==> (#[trigger] rows@[r])@ == mul_row(v@, self@)[r],
            decreases n - i,
        {
            assert(self@[i as int].len() == self.width());
            rows.push(vec_mul(v, &self.rows[i]));
            i += 1;
        }
        let m = Matrix { cols: self.cols, rows };
        proof {
            assert(m@ =~= mul_row(v@, self@));
        }
        m
    }

    /// The entry-by-entry product `self * rhs`.
    pub fn hadamard(&self, rhs: &Matrix<T>) -> (r: Self)
        requires
            self.wf(),
            rhs.wf(),
            self@.len() == rhs@.len(),
            self.width() == rhs.width(),
        ensures
            r.wf(),
            r.width() == self.width(),
            r@ == hadamard(self@, rhs@),
    {
        let n = self.rows.len();
        let mut rows: Vec<Vec<T>> = Vec::new();
        let mut i: usize = 0;
        while i < n
            invariant
                i <= n,
                self.wf(),
                rhs.wf(),
                self.width() == rhs.width(),
                n == self.rows@.len(),
                n == rhs.rows@.len(),
                rows@.len() == i,
                forall|r: int| 0 <= r < i ==> (#[trigger] rows@[r])@ == hadamard(self@, rhs@)[r],
            decreases n - i,
        {
            assert(self@[i as int].len() == self.width());
            assert(rhs@[i as int].len() == rhs.width());
            rows.push(vec_mul(&self.rows[i], &rhs.rows[i]));
            i += 1;
        }
        let m = Matrix { cols: self.cols, rows };
        proof {
            assert(m@ =~= hadamard(self@, rhs@));
            assert forall|r: int| 0 <= r < m@.len() implies (#[trigger] m@[r]).len()
                == m.width() by {
                assert(self@[r].len() == self.width());
            }
        }
        m
    }

    /// The entry-by-entry difference `self - rhs`.
    pub fn subtract(&self, rhs: &Matrix<T>) -> (r: Self)
        requires
            self.wf(),
            rhs.wf(),
            self@.len() == rhs@.len(),
            self.width() == rhs.width(),
        ensures
            r.wf(),
            r.width() == self.width(),
            r@ == mat_sub(self@, rhs@),
    {
        let n = self.rows.len();
        let mut rows: Vec<Vec<T>> = Vec::new();
        let mut i: usize = 0;
        while i < n
            invariant
                i <= n,
                self.wf(),
                rhs.wf(),
                self.width() == rhs.width(),
                n == self.rows@.len(),
                n == rhs.rows@.len(),
                rows@.len() == i,
                forall|r: int| 0 <= r < i ==> (#[trigger] rows@[r])@ == mat_sub(self@, rhs@)[r],
            decreases n - i,
        {
            assert(self@[i as int].len() == self.width());
            assert(rhs@[i as int].len() == rhs.width());
            rows.push(vec_sub(&self.rows[i], &rhs.rows[i]));
            i += 1;
        }
        let m = Matrix { cols: self.cols, rows };
        proof {
            assert(m@ =~= mat_sub(self@, rhs@));
            assert forall|r: int| 0 <= r < m@.len() implies (#[trigger] m@[r]).len()
                == m.width() by {
                assert(self@[r].len() == self.width());
            }
        }
        m
    }

    /// Every entry multiplied, from the right, by `s`.
    pub fn scale(&self, s: T) -> (r: Self)
        requires
            self.wf(),
        ensures
            r.wf(),
            r.width() == self.width(),
            r@ == scale(self@, s),
    {
        let n = self.rows.len();
        let mut rows: Vec<Vec<T>> = Vec::new();
        let mut i: usize = 0;
        while i < n
            invariant
                i <= n,
                self.wf(),
                n == self.rows@.len(),
                rows@.len() == i,
                forall|r: int| 0 <= r < i ==> (#[trigger] rows@[r])@ == scale(self@, s)[r],
            decreases n - i,
        {
            rows.push(vec_scale(&self.rows[i], s));
            i += 1;
        }
        let m = Matrix { cols: self.cols, rows };
        proof {
            assert(m@ =~= scale(self@, s));
            assert forall|r: int| 0 <= r < m@.len() implies (#[trigger] m@[r]).len()
                == m.width() by {
                assert(self@[r].len() == self.width());
            }
        }
        m
    }

    /// The sum of each column.
    pub fn column_sums(&self) -> (r: Vec<T>)
        requires
            self.wf(),
        ensures
            r@ == col_sums(self@, self.width()),
    {
        let n = self.rows.len();
        let mut sums: Vec<T> = Vec::new();
        let mut j: usize = 0;
        while j < self.cols
            invariant
                j <= self.cols,
                self.wf(),
                n == self.rows@.len(),
                sums@ == col_sums(self@, self.width()).take(j as int),
            decreases self.cols - j,
        {
            let mut acc = T::zero();
            let mut i: usize = 0;
            while i < n
                invariant
                    i <= n,
                    j < self.cols,
                    self.wf(),
                    n == self.rows@.len(),
                    acc == sum_prefix(column(self@, j as int), i as nat),
                decreases n - i,
            {
                assert(self@[i as int].len() == self.width());
                acc = acc.add(self.rows[i][j]);
                i += 1;
            }
            sums.push(acc);
            j += 1;
        }
        sums
    }

    /// The mean of each column: its sum divided by the number of rows.
    pub fn column_means(&self) -> (r: Vec<T>)
        requires
            self.wf(),
        ensures
            r@ == col_means(self@, self.width()),
    {
        let n = self.rows.len();
        let count = T::from_count(n);
        let sums = self.column_sums();
        let mut means: Vec<T> = Vec::new();
        let mut j: usize = 0;
        while j < sums.len()
            invariant
                j <= sums.len(),
                n == self@.len(),
                count == T::from_count_spec(n),
                sums@ == col_sums(self@, self.width()),
                means@ == col_means(self@, self.width()).take(j as int),
            decreases sums.len() - j,
        {
            means.push(sums[j].div(count));
            j += 1;
        }
        means
    }
}

} // verus!
