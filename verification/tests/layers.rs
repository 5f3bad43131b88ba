use neural_network_scratch::activation::Activation;
use neural_network_scratch::error::NnError;
use neural_network_scratch::initializer::Initializers;
use neural_network_scratch::layer::dense_layer::DenseLayer;
use neural_network_scratch::layer::full_layer::FullLayer;
use neural_network_scratch::layer::{DropoutLayer, Layer, LearnableLayer};
use neural_network_scratch::learning_rate::LearningRateSchedule;
use neural_network_scratch::matrix::Matrix;
use neural_network_scratch::optimizer::adam::AdamOptimizer;
use neural_network_scratch::optimizer::Optimizers;

fn cm_l(rows: usize, cols: usize, v: f64) -> Matrix {
    Matrix::constant_matrix(rows, cols, v.to_bits())
}

fn adam_opt() -> Optimizers {
    let schedule = LearningRateSchedule::Constant((0.001f64).to_bits());
    Optimizers::AdamOptimizer(AdamOptimizer::new(
        schedule,
        (0.9f64).to_bits(),
        (0.999f64).to_bits(),
        (1e-8f64).to_bits(),
    ))
}

/// A 3-input, 2-output dense transform with every weight `w` and a zero
/// bias, built deterministically.
fn dense_3_to_2(w: f64) -> DenseLayer {
    let mut layer = DenseLayer::new(
        3,
        2,
        adam_opt(),
        adam_opt(),
        Initializers::Zeros,
        Initializers::Zeros,
    )
    .unwrap();
    let col = vec![w.to_bits(), w.to_bits(), w.to_bits()];
    let bias = vec![(0.0f64).to_bits(), (0.0f64).to_bits()];
    let params = vec![col.clone(), col, bias];
    layer.set_learnable_parameters(&params);
    layer
}

#[test]
fn test_dense_forward_product() {
    // ones(2,3) . constant(3,2,2.0) = constant(2,2,6.0): three terms of 1*2.
    let mut layer = dense_3_to_2(2.0);
    let input = cm_l(2, 3, 1.0);
    let out = layer.forward(input).unwrap();
    assert_eq!(out, cm_l(2, 2, 6.0));
}

#[test]
fn test_dense_forward_shape_mismatch() {
    let mut layer = dense_3_to_2(2.0);
    let input = cm_l(2, 4, 1.0);
    assert_eq!(layer.forward(input), Err(NnError::ShapeMismatch));
}

#[test]
fn test_dense_backward_uninitialized() {
    // Backward on a never-forwarded dense transform is a usage error.
    let mut layer = dense_3_to_2(2.0);
    let g = cm_l(2, 2, 1.0);
    assert_eq!(layer.backward(1, g), Err(NnError::UninitializedState));
}

#[test]
fn test_dense_backward_gradient() {
    let mut layer = dense_3_to_2(2.0);
    layer.forward(cm_l(2, 3, 1.0)).unwrap();
    let g = cm_l(2, 2, 1.0);
    let input_gradient = layer.backward(1, g).unwrap();
    // g . W^T: each cell sums two terms of 1 * 2.
    assert_eq!(input_gradient, cm_l(2, 3, 4.0));
    // The weights moved against the positive gradient.
    for j in 0..2 {
        for &b in layer.weights.get_column(j).iter() {
            let w = f64::from_bits(b);
            assert!(w < 2.0 && w > 2.0 - 0.002);
        }
    }
}

#[test]
fn test_learnable_parameters_round_trip() {
    let layer = dense_3_to_2(2.0);
    let params = layer.get_learnable_parameters();
    assert_eq!(params.len(), 3);
    assert_eq!(params[0], vec![(2.0f64).to_bits(); 3]);
    assert_eq!(params[1], vec![(2.0f64).to_bits(); 3]);
    assert_eq!(params[2], vec![(0.0f64).to_bits(); 2]);

    let mut other = DenseLayer::new(
        3,
        2,
        adam_opt(),
        adam_opt(),
        Initializers::Zeros,
        Initializers::Zeros,
    )
    .unwrap();
    other.set_learnable_parameters(&params);
    assert_eq!(other.weights, layer.weights);
    assert_eq!(other.bias, layer.bias);
}

#[test]
fn test_full_layer_invalid_dropout_rate() {
    let dense = dense_3_to_2(2.0);
    let activation = Activation::Linear.to_layer();
    let r = FullLayer::new(dense, activation, Some((1.5f64).to_bits()));
    assert!(matches!(r, Err(NnError::InvalidConfiguration)));
    let dense = dense_3_to_2(2.0);
    let activation = Activation::Linear.to_layer();
    let r = FullLayer::new(dense, activation, Some((-0.1f64).to_bits()));
    assert!(matches!(r, Err(NnError::InvalidConfiguration)));
}

#[test]
fn test_full_layer_dropout_zero_is_noop() {
    // rate = 0.0 keeps every cell at scale 1/(1-0) = 1, so the output
    // equals the plain dense-transform output.
    let dense = dense_3_to_2(2.0);
    let activation = Activation::Linear.to_layer();
    let mut full = FullLayer::new(dense, activation, Some((0.0f64).to_bits())).unwrap();
    assert!(full.dropout_enabled);
    let out = full.forward(cm_l(2, 3, 1.0)).unwrap();

    let mut plain = dense_3_to_2(2.0);
    let expected = plain.forward(cm_l(2, 3, 1.0)).unwrap();
    assert_eq!(out, expected);
}

#[test]
fn test_full_layer_dropout_one_zeroes_output() {
    // rate = 1.0: no draw from [0, 1) falls below 1 - 1 = 0, so every mask
    // cell drops and the whole output is zero - never a division crash.
    let dense = dense_3_to_2(2.0);
    let activation = Activation::Linear.to_layer();
    let mut full = FullLayer::new(dense, activation, Some((1.0f64).to_bits())).unwrap();
    let out = full.forward(cm_l(2, 3, 1.0)).unwrap();
    assert_eq!(out, cm_l(2, 2, 0.0));
}

#[test]
fn test_full_layer_forward_backward() {
    let dense = dense_3_to_2(2.0);
    let activation = Activation::Sigmoid.to_layer();
    let mut full = FullLayer::new(dense, activation, None).unwrap();
    assert!(!full.dropout_enabled);
    let out = full.forward(cm_l(2, 3, 0.0)).unwrap();
    // Zero input, zero bias: the dense output is zero, sigmoid gives 0.5.
    assert_eq!(out, cm_l(2, 2, 0.5));
    let g = cm_l(2, 2, 2.0);
    let input_gradient = full.backward(1, g).unwrap();
    assert_eq!(input_gradient.shape(), (2, 3));
    // Sigmoid backward turns the upstream 2.0 into 2.0 * 0.25 = 0.5, and
    // the dense backward maps it through W^T: two terms of 0.5 * 2.
    assert_eq!(input_gradient, cm_l(2, 3, 2.0));
}

#[test]
fn test_dropout_toggles() {
    let dense = dense_3_to_2(2.0);
    let activation = Activation::Linear.to_layer();
    let mut full = FullLayer::new(dense, activation, None).unwrap();
    assert!(!full.dropout_enabled);
    full.enable_dropout();
    assert!(full.dropout_enabled);
    full.disable_dropout();
    assert!(!full.dropout_enabled);
}

#[test]
fn test_full_layer_learnable_delegation() {
    let dense = dense_3_to_2(2.0);
    let activation = Activation::Linear.to_layer();
    let mut full = FullLayer::new(dense, activation, None).unwrap();
    let params = full.get_learnable_parameters();
    assert_eq!(params.len(), 3);
    let col = vec![(7.0f64).to_bits(); 3];
    let bias = vec![(1.0f64).to_bits(); 2];
    let new_params = vec![col.clone(), col, bias];
    full.set_learnable_parameters(&new_params);
    assert_eq!(full.get_learnable_parameters(), new_params);
    let out = full.forward(cm_l(1, 3, 1.0)).unwrap();
    // 3 terms of 1*7, plus the bias 1.
    assert_eq!(out, cm_l(1, 2, 22.0));
}
