use robit::activations::Relu;
use robit::optimizers::{Optimizer, SGD};
use robit::{Fixed, Matrix};

fn units(values: &[f64]) -> Vec<Fixed> {
    values.iter().map(|v| Fixed { raw: (v * 1_000_000.0).round() as i64 }).collect()
}

fn table(rows: usize, cols: usize, values: &[f64]) -> Matrix<Fixed> {
    Matrix::from_shape_vec((rows, cols), units(values)).unwrap()
}

#[test]
fn sgd_default_learning_rate() {
    assert_eq!(Fixed { raw: 2_500 }, SGD::default().learning_rate());
    assert_eq!(units(&[0.5])[0], SGD::new(units(&[0.5])[0]).learning_rate());
}

#[test]
fn sgd_steps_one_layer_against_its_gradient() {
    let mut weights = vec![table(2, 1, &[0.5, -0.25])];
    let mut biases = vec![units(&[0.1])];
    let x = table(2, 2, &[1.0, 2.0, 3.0, 4.0]);
    let z = table(2, 1, &[0.1, 0.6]);
    let a = table(2, 1, &[0.1, 0.6]);
    let error = units(&[-0.3]);

    SGD::new(units(&[0.1])[0]).minimize(
        &mut weights,
        &mut biases,
        &vec![x, a],
        &vec![z],
        &error,
        &Relu,
    );

    // error term: -0.3 in both rows; weight gradient: [-1.2, -1.8]; bias gradient: -0.3
    assert_eq!(vec![table(2, 1, &[0.62, -0.07])], weights);
    assert_eq!(vec![units(&[0.13])], biases);
}

#[test]
fn sgd_leaves_parameters_where_the_slope_is_zero() {
    let mut weights = vec![table(1, 2, &[1.0, 1.0])];
    let mut biases = vec![units(&[0.0, 0.0])];
    let x = table(1, 1, &[2.0]);
    let z = table(1, 2, &[-1.0, 3.0]);
    let a = table(1, 2, &[0.0, 3.0]);
    let error = units(&[1.0, 1.0]);

    SGD::new(units(&[0.5])[0]).minimize(
        &mut weights,
        &mut biases,
        &vec![x, a],
        &vec![z],
        &error,
        &Relu,
    );

    // only the second output has a slope: its weight moves by 0.5 * 2, its bias by 0.5 * 1
    assert_eq!(vec![table(1, 2, &[1.0, 0.0])], weights);
    assert_eq!(vec![units(&[0.0, -0.5])], biases);
}

#[test]
fn sgd_carries_the_error_back_through_the_old_weights() {
    let mut weights = vec![
        table(2, 2, &[0.5, -1.0, 0.25, 0.5]),
        table(2, 1, &[1.0, -0.5]),
    ];
    let mut biases = vec![units(&[0.0, 0.5]), units(&[0.2])];
    let x = table(3, 2, &[1.0, 2.0, -1.0, 1.0, 2.0, 0.0]);
    let z0 = table(3, 2, &[1.0, 0.5, -0.25, 2.0, 1.0, -1.5]);
    let a1 = table(3, 2, &[1.0, 0.5, 0.0, 2.0, 1.0, 0.0]);
    let z1 = table(3, 1, &[0.95, -0.8, 1.2]);
    let a2 = table(3, 1, &[0.95, 0.0, 1.2]);
    let error = units(&[0.65]);

    SGD::new(units(&[0.01])[0]).minimize(
        &mut weights,
        &mut biases,
        &vec![x, a1, a2],
        &vec![z0, z1],
        &error,
        &Relu,
    );

    assert_eq!(
        vec![
            table(2, 2, &[0.4805, -0.99675, 0.237, 0.5065]),
            table(2, 1, &[0.987, -0.50325]),
        ],
        weights
    );
    assert_eq!(
        vec![
            vec![Fixed { raw: -4_333 }, Fixed { raw: 501_083 }],
            vec![Fixed { raw: 195_667 }],
        ],
        biases
    );
}

#[test]
fn sgd_without_layers_does_nothing() {
    let mut weights: Vec<Matrix<Fixed>> = vec![];
    let mut biases: Vec<Vec<Fixed>> = vec![];
    let x = table(1, 2, &[1.0, 2.0]);

    SGD::default().minimize(&mut weights, &mut biases, &vec![x], &vec![], &units(&[0.0, 0.0]), &Relu);

    assert!(weights.is_empty());
    assert!(biases.is_empty());
}
