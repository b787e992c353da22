use robit::losses::{Loss, MeanSquaredError};
use robit::{Fixed, Matrix, Scalar};

fn millionths(values: &[f64]) -> Vec<Fixed> {
    values.iter().map(|v| Fixed { raw: (v * 1_000_000.0).round() as i64 }).collect()
}

/// A scalar of the machine's floating-point numbers.
#[derive(Clone, Copy, Debug, PartialEq)]
struct Float(f64);

impl Scalar for Float {
    fn zero_spec() -> Self {
        unreachable!()
    }

    fn one_spec() -> Self {
        unreachable!()
    }

    fn from_count_spec(_n: usize) -> Self {
        unreachable!()
    }

    fn add_spec(self, _rhs: Self) -> Self {
        unreachable!()
    }

    fn sub_spec(self, _rhs: Self) -> Self {
        unreachable!()
    }

    fn mul_spec(self, _rhs: Self) -> Self {
        unreachable!()
    }

    fn div_spec(self, _rhs: Self) -> Self {
        unreachable!()
    }

    fn le_spec(self, _rhs: Self) -> bool {
        unreachable!()
    }

    fn zero() -> Self {
        Float(0.0)
    }

    fn one() -> Self {
        Float(1.0)
    }

    fn from_count(n: usize) -> Self {
        Float(n as f64)
    }

    fn add(self, rhs: Self) -> Self {
        Float(self.0 + rhs.0)
    }

    fn sub(self, rhs: Self) -> Self {
        Float(self.0 - rhs.0)
    }

    fn mul(self, rhs: Self) -> Self {
        Float(self.0 * rhs.0)
    }

    fn div(self, rhs: Self) -> Self {
        Float(self.0 / rhs.0)
    }

    fn le(self, rhs: Self) -> bool {
        self.0 <= rhs.0
    }
}

#[test]
fn test_f64() {
    let y_true = [Float(0.6), Float(0.3)];
    let y_pred = [Float(0.3), Float(0.1)];

    let mse = MeanSquaredError::default();

    assert!((0.125 - mse.row_loss(&y_true, &y_pred).0).abs() < 1e-12);
}

#[test]
fn test_f64_zero() {
    let y_true = [Float(0.6), Float(0.3)];
    let y_pred = [Float(0.6), Float(0.3)];

    let mse = MeanSquaredError::default();

    assert_eq!(0.0, mse.row_loss(&y_true, &y_pred).0);
}

#[test]
fn test_decimal() {
    let y_true = millionths(&[0.6, 0.3]);
    let y_pred = millionths(&[0.3, 0.1]);

    let mse = MeanSquaredError::default();

    assert_eq!(millionths(&[0.125])[0], mse.row_loss(&y_true, &y_pred));
}

#[test]
fn row_loss_of_a_near_miss() {
    let y_true = millionths(&[0.5, 0.4]);
    let y_pred = millionths(&[0.6, 0.4]);

    let mse = MeanSquaredError::default();

    assert_eq!(Fixed { raw: 5_000 }, mse.row_loss(&y_true, &y_pred));

    let in_floats = mse.row_loss(&[Float(0.5), Float(0.4)], &[Float(0.6), Float(0.4)]);
    assert!((0.005 - in_floats.0).abs() < 1e-12);
}

#[test]
fn row_loss_of_an_exact_prediction_is_zero() {
    let y = millionths(&[0.6, 0.3]);
    assert_eq!(Fixed { raw: 0 }, MeanSquaredError.row_loss(&y, &y));
}

#[test]
fn row_loss_without_outputs_is_zero() {
    assert_eq!(Fixed { raw: 0 }, MeanSquaredError.row_loss::<Fixed>(&[], &[]));
}

#[test]
fn error_signal_of_one_row() {
    let y_true = Matrix::from_shape_vec((1, 2), millionths(&[0.6, 0.3])).unwrap();
    let y_pred = Matrix::from_shape_vec((1, 2), millionths(&[0.3, 0.1])).unwrap();

    assert_eq!(
        millionths(&[-0.15, -0.1]),
        MeanSquaredError.get(&y_true, &y_pred)
    );
    assert_eq!(
        millionths(&[0.15, 0.1]),
        MeanSquaredError.get(&y_pred, &y_true)
    );
}

#[test]
fn error_signal_sums_over_the_rows_of_the_batch() {
    let y_true = Matrix::from_shape_vec((2, 1), millionths(&[0.6, 0.3])).unwrap();
    let y_pred = Matrix::from_shape_vec((2, 1), millionths(&[0.3, 0.1])).unwrap();

    assert_eq!(millionths(&[-0.5]), MeanSquaredError.get(&y_true, &y_pred));
}

#[test]
fn error_signal_has_one_entry_for_each_column() {
    let y_true = Matrix::from_shape_vec((2, 3), millionths(&[1.0, 2.0, 3.0, 4.0, 5.0, 6.0])).unwrap();
    let y_pred = Matrix::from_shape_vec((2, 3), millionths(&[1.5, 2.0, 0.0, 4.5, 8.0, 0.0])).unwrap();

    // column sums of the differences: 1, 3, -9; each divided by 3 columns
    assert_eq!(
        millionths(&[0.333333, 1.0, -3.0]),
        MeanSquaredError.get(&y_true, &y_pred)
    );
}

#[test]
fn error_signal_of_an_exact_prediction_is_zero() {
    let y = Matrix::from_shape_vec((2, 2), millionths(&[0.6, 0.3, 0.1, 0.2])).unwrap();
    assert_eq!(millionths(&[0.0, 0.0]), MeanSquaredError.get(&y, &y));
}
