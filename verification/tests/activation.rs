use neural_network_scratch::activation::Activation;
use neural_network_scratch::error::NnError;
use neural_network_scratch::layer::Layer;
use neural_network_scratch::matrix::Matrix;

fn cm_a(rows: usize, cols: usize, v: f64) -> Matrix {
    Matrix::constant_matrix(rows, cols, v.to_bits())
}

#[test]
fn test_linear_forward() {
    let mut linear_layer = Activation::Linear.to_layer();
    let input = cm_a(2, 2, 1.0);
    let output = linear_layer.forward(input.clone()).unwrap();
    assert_eq!(output, input); // Linear activation should just return the input as output
}

#[test]
fn test_sigmoid_forward() {
    let mut sigmoid_layer = Activation::Sigmoid.to_layer();
    let input = cm_a(2, 2, 0.0); // sigmoid(0) = 0.5
    let output = sigmoid_layer.forward(input.clone()).unwrap();
    let expected = cm_a(2, 2, 0.5);
    assert_eq!(output, expected); // Sigmoid of 0 should be 0.5
}

#[test]
fn test_linear_backward() {
    let mut linear_layer = Activation::Linear.to_layer();
    let output_gradient = cm_a(2, 2, 2.0);
    linear_layer.forward(output_gradient.clone()).unwrap();

    let backward_output = linear_layer.backward(1, output_gradient).unwrap();

    let expected = cm_a(2, 2, 2.0); // Derivative of linear is 1, so grad remains the same

    assert_eq!(backward_output, expected);
}

#[test]
fn test_sigmoid_backward() {
    let mut sigmoid_layer = Activation::Sigmoid.to_layer();
    let output_gradient = cm_a(2, 2, 2.0);

    // Forward pass (this will compute the sigmoid of the input)
    let input = cm_a(2, 2, 0.0); // 0 input, sigmoid(0) = 0.5
    sigmoid_layer.forward(input.clone()).unwrap();

    let backward_output = sigmoid_layer.backward(1, output_gradient.clone()).unwrap();

    // The expected value for sigmoid derivative at 0 should be 0.25
    // (sigmoid(0) = 0.5, derivative = 0.5 * 0.5)
    let expected = cm_a(2, 2, 0.5); // Expected output is gradient * derivative (2.0 * 0.25)

    assert_eq!(backward_output, expected);
}

#[test]
fn test_backward_before_forward_fails() {
    let mut sigmoid_layer = Activation::Sigmoid.to_layer();
    let output_gradient = cm_a(2, 2, 2.0);
    let r = sigmoid_layer.backward(1, output_gradient);
    assert_eq!(r, Err(NnError::UninitializedState));
}

#[test]
fn test_backward_shape_mismatch() {
    let mut linear_layer = Activation::Linear.to_layer();
    linear_layer.forward(cm_a(2, 2, 1.0)).unwrap();
    let r = linear_layer.backward(1, cm_a(3, 2, 1.0));
    assert_eq!(r, Err(NnError::ShapeMismatch));
}
