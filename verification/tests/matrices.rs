use robit::matrix::{vec_add, vec_copy, vec_mul, vec_scale, vec_sub};
use robit::{Fixed, Matrix};

fn whole(values: &[i64]) -> Vec<Fixed> {
    values.iter().map(|v| Fixed { raw: v * 1_000_000 }).collect()
}

fn grid_of(rows: usize, cols: usize, values: &[i64]) -> Matrix<Fixed> {
    Matrix::from_shape_vec((rows, cols), whole(values)).unwrap()
}

#[test]
fn from_shape_vec_reads_row_by_row() {
    let m = grid_of(2, 3, &[1, 2, 3, 4, 5, 6]);
    assert_eq!(2, m.nrows());
    assert_eq!(3, m.ncols());
    assert_eq!(&whole(&[1, 2, 3]), m.row(0));
    assert_eq!(&whole(&[4, 5, 6]), m.row(1));
    assert_eq!(whole(&[6])[0], m.get(1, 2));
    assert_eq!(whole(&[4])[0], m.get(1, 0));
}

#[test]
fn from_shape_vec_refuses_a_wrong_length() {
    assert!(Matrix::from_shape_vec((2, 3), whole(&[1, 2, 3, 4, 5])).is_none());
    assert!(Matrix::from_shape_vec((2, 3), whole(&[1, 2, 3, 4, 5, 6, 7])).is_none());
    assert!(Matrix::from_shape_vec((usize::MAX, 2), whole(&[1, 2])).is_none());
    assert!(Matrix::from_shape_vec((0, 3), whole(&[1])).is_none());
}

#[test]
fn a_matrix_without_rows_keeps_its_width() {
    let m = Matrix::<Fixed>::from_shape_vec((0, 3), vec![]).unwrap();
    assert_eq!(0, m.nrows());
    assert_eq!(3, m.ncols());
    let t = m.t();
    assert_eq!(3, t.nrows());
    assert_eq!(0, t.ncols());
}

#[test]
fn from_rows_checks_every_row() {
    let m = Matrix::from_rows(2, vec![whole(&[1, 2]), whole(&[3, 4])]).unwrap();
    assert_eq!(grid_of(2, 2, &[1, 2, 3, 4]), m);
    assert!(Matrix::from_rows(2, vec![whole(&[1, 2]), whole(&[3])]).is_none());
    assert!(Matrix::from_rows(3, vec![whole(&[1, 2])]).is_none());
    assert_eq!(0, Matrix::<Fixed>::from_rows(4, vec![]).unwrap().nrows());
}

#[test]
fn copy_and_slice_rows() {
    let m = grid_of(3, 2, &[1, 2, 3, 4, 5, 6]);
    assert_eq!(m, m.copy());
    assert_eq!(grid_of(2, 2, &[3, 4, 5, 6]), m.slice_rows(1, 3));
    assert_eq!(grid_of(1, 2, &[1, 2]), m.slice_rows(0, 1));
    assert_eq!(0, m.slice_rows(2, 2).nrows());
    assert_eq!(2, m.slice_rows(2, 2).ncols());
}

#[test]
fn transpose_swaps_rows_and_columns() {
    let m = grid_of(2, 3, &[1, 2, 3, 4, 5, 6]);
    assert_eq!(grid_of(3, 2, &[1, 4, 2, 5, 3, 6]), m.t());
    assert_eq!(m, m.t().t());
}

#[test]
fn dot_is_the_matrix_product() {
    let a = grid_of(2, 3, &[1, 2, 3, 4, 5, 6]);
    let b = grid_of(3, 2, &[7, 8, 9, 10, 11, 12]);
    assert_eq!(grid_of(2, 2, &[58, 64, 139, 154]), a.dot(&b));
    assert_eq!(
        grid_of(3, 3, &[39, 54, 69, 49, 68, 87, 59, 82, 105]),
        b.dot(&a)
    );
}

#[test]
fn dot_over_no_terms_is_zero() {
    let a = Matrix::<Fixed>::from_shape_vec((2, 0), vec![]).unwrap();
    let b = Matrix::<Fixed>::from_shape_vec((0, 3), vec![]).unwrap();
    assert_eq!(grid_of(2, 3, &[0, 0, 0, 0, 0, 0]), a.dot(&b));
}

#[test]
fn rows_take_a_vector() {
    let m = grid_of(2, 2, &[1, 2, 3, 4]);
    assert_eq!(grid_of(2, 2, &[11, 22, 13, 24]), m.add_row(&whole(&[10, 20])));
    assert_eq!(grid_of(2, 2, &[10, 40, 30, 80]), m.mul_row(&whole(&[10, 20])));
}

#[test]
fn entrywise_operations() {
    let a = grid_of(2, 2, &[1, 2, 3, 4]);
    let b = grid_of(2, 2, &[5, 6, 7, 8]);
    assert_eq!(grid_of(2, 2, &[5, 12, 21, 32]), a.hadamard(&b));
    assert_eq!(grid_of(2, 2, &[-4, -4, -4, -4]), a.subtract(&b));
    assert_eq!(grid_of(2, 2, &[4, 4, 4, 4]), b.subtract(&a));
    assert_eq!(grid_of(2, 2, &[3, 6, 9, 12]), a.scale(whole(&[3])[0]));
}

#[test]
fn columns_sum_and_average() {
    let m = grid_of(3, 2, &[1, 2, 3, 4, 5, 9]);
    assert_eq!(whole(&[9, 15]), m.column_sums());
    assert_eq!(whole(&[3, 5]), m.column_means());
    let one_row = grid_of(1, 2, &[7, 8]);
    assert_eq!(whole(&[7, 8]), one_row.column_means());
}

#[test]
fn a_mean_rounds_toward_zero() {
    let m = Matrix::from_shape_vec(
        (3, 1),
        vec![Fixed { raw: 1 }, Fixed { raw: 0 }, Fixed { raw: 0 }],
    )
    .unwrap();
    assert_eq!(vec![Fixed { raw: 0 }], m.column_means());
    let n = Matrix::from_shape_vec(
        (3, 1),
        vec![Fixed { raw: -10 }, Fixed { raw: 0 }, Fixed { raw: 0 }],
    )
    .unwrap();
    assert_eq!(vec![Fixed { raw: -3 }], n.column_means());
}

#[test]
fn vectors_combine_entry_by_entry() {
    let a = whole(&[1, 2, 3]);
    let b = whole(&[10, 20, 30]);
    assert_eq!(a, vec_copy(&a));
    assert_eq!(whole(&[11, 22, 33]), vec_add(&a, &b));
    assert_eq!(whole(&[-9, -18, -27]), vec_sub(&a, &b));
    assert_eq!(whole(&[10, 40, 90]), vec_mul(&a, &b));
    assert_eq!(whole(&[2, 4, 6]), vec_scale(&a, whole(&[2])[0]));
}
