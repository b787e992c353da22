use robit::activations::{activate, differentiate, Activation, Relu};
use robit::{Fixed, Matrix, Scalar};

fn raws(values: &[i64]) -> Vec<Fixed> {
    values.iter().map(|v| Fixed { raw: *v }).collect()
}

/// A floating-point scalar, to reach the values that compare with nothing.
#[derive(Clone, Copy, Debug, PartialEq)]
struct Num(f64);

impl Scalar for Num {
    fn zero_spec() -> Self {
        unreachable!()
    }

    fn one_spec() -> Self {
        unreachable!()
    }

    fn from_count_spec(_n: usize) -> Self {
        unreachable!()
    }

    fn add_spec(self, _rhs: Self) -> Self {
        unreachable!()
    }

    fn sub_spec(self, _rhs: Self) -> Self {
        unreachable!()
    }

    fn mul_spec(self, _rhs: Self) -> Self {
        unreachable!()
    }

    fn div_spec(self, _rhs: Self) -> Self {
        unreachable!()
    }

    fn le_spec(self, _rhs: Self) -> bool {
        unreachable!()
    }

    fn zero() -> Self {
        Num(0.0)
    }

    fn one() -> Self {
        Num(1.0)
    }

    fn from_count(n: usize) -> Self {
        Num(n as f64)
    }

    fn add(self, rhs: Self) -> Self {
        Num(self.0 + rhs.0)
    }

    fn sub(self, rhs: Self) -> Self {
        Num(self.0 - rhs.0)
    }

    fn mul(self, rhs: Self) -> Self {
        Num(self.0 * rhs.0)
    }

    fn div(self, rhs: Self) -> Self {
        Num(self.0 / rhs.0)
    }

    fn le(self, rhs: Self) -> bool {
        self.0 <= rhs.0
    }
}

#[test]
fn relu_keeps_what_is_not_below_zero() {
    let batch = Matrix::from_shape_vec((2, 3), raws(&[-2, -1, 0, 1, 2, 3_000_000])).unwrap();
    let expected = Matrix::from_shape_vec((2, 3), raws(&[0, 0, 0, 1, 2, 3_000_000])).unwrap();

    assert_eq!(expected, Relu.call(&batch));
    assert_eq!(expected, activate(&Relu, &batch));
}

#[test]
fn relu_slope_is_one_from_zero_on() {
    let batch = Matrix::from_shape_vec((2, 3), raws(&[-2, -1, 0, 1, 2, 3_000_000])).unwrap();
    let one = 1_000_000;
    let expected = Matrix::from_shape_vec((2, 3), raws(&[0, 0, one, one, one, one])).unwrap();

    assert_eq!(expected, Relu.call_deriv(&batch));
    assert_eq!(expected, differentiate(&Relu, &batch));
}

#[test]
fn relu_keeps_the_shape_of_the_batch() {
    let empty = Matrix::<Fixed>::from_shape_vec((0, 4), vec![]).unwrap();
    assert_eq!(0, Relu.call(&empty).nrows());
    assert_eq!(4, Relu.call(&empty).ncols());
    assert_eq!(0, Relu.call_deriv(&empty).nrows());
    assert_eq!(4, Relu.call_deriv(&empty).ncols());
}

#[test]
fn relu_falls_back_to_zero_where_nothing_compares() {
    let batch = Matrix::from_shape_vec(
        (1, 4),
        vec![Num(f64::NAN), Num(-0.5), Num(0.0), Num(2.5)],
    )
    .unwrap();

    assert_eq!(
        &vec![Num(0.0), Num(0.0), Num(0.0), Num(2.5)],
        Relu.call(&batch).row(0)
    );
    assert_eq!(
        &vec![Num(0.0), Num(0.0), Num(1.0), Num(1.0)],
        Relu.call_deriv(&batch).row(0)
    );
}

#[test]
fn relu_default_is_relu() {
    let batch = Matrix::from_shape_vec((1, 2), raws(&[-7, 7])).unwrap();
    let relu = Relu::default();
    assert_eq!(&raws(&[0, 7]), Activation::<Fixed>::call(&relu, &batch).row(0));
}
