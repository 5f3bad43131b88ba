use neural_network_scratch::error::NnError;
use neural_network_scratch::learning_rate::LearningRateSchedule;
use neural_network_scratch::matrix::Matrix;
use neural_network_scratch::optimizer::adam::AdamOptimizer;

fn cm_o(rows: usize, cols: usize, v: f64) -> Matrix {
    Matrix::constant_matrix(rows, cols, v.to_bits())
}

fn fresh_adam() -> AdamOptimizer {
    let learning_rate_schedule = LearningRateSchedule::Constant((0.001f64).to_bits());
    AdamOptimizer::new(
        learning_rate_schedule,
        (0.9f64).to_bits(),
        (0.999f64).to_bits(),
        (1e-8f64).to_bits(),
    )
}

#[test]
fn test_adam_optimizer() {
    let mut adam = fresh_adam();

    // Initialize parameters (weights) and gradients
    let mut params = Matrix::random_normal(3, 3, (0.0f64).to_bits(), (0.1f64).to_bits()).unwrap();
    let grads = Matrix::random_normal(3, 3, (0.0f64).to_bits(), (0.05f64).to_bits()).unwrap();

    // Initialize Adam optimizer with the shape of the parameters
    adam.init(params.shape().0, params.shape().1);

    // Perform updates for 5 epochs
    for epoch in 1..=5 {
        params = adam.update(&params, &grads, epoch).unwrap();
        println!("Epoch {}: {:?}", epoch, params);
    }
    assert_eq!(adam.t, 5);
}

#[test]
fn test_adam_first_step_bounded() {
    // After exactly one update with a nonzero constant gradient, t is one
    // and every parameter moved by no more than the learning rate.
    let mut adam = fresh_adam();
    let params = cm_o(2, 2, 1.0);
    let grads = cm_o(2, 2, 0.5);
    let stepped = adam.update(&params, &grads, 1).unwrap();
    assert_eq!(adam.t, 1);
    for j in 0..2 {
        for &b in stepped.get_column(j).iter() {
            let x = f64::from_bits(b);
            assert!((x - 1.0).abs() <= 0.001);
            assert!(x < 1.0); // it moved against the positive gradient
        }
    }
}

#[test]
fn test_adam_moment_shapes() {
    // The moment tensors take the gradient's shape on the first update,
    // whatever that shape is.
    for &(r, c) in [(1usize, 1usize), (2, 3), (5, 1), (4, 4)].iter() {
        let mut adam = fresh_adam();
        let params = cm_o(r, c, 0.0);
        let grads = cm_o(r, c, 0.25);
        adam.update(&params, &grads, 1).unwrap();
        assert_eq!(adam.m.as_ref().unwrap().shape(), (r, c));
        assert_eq!(adam.v.as_ref().unwrap().shape(), (r, c));
    }
}

#[test]
fn test_adam_shape_mismatch() {
    let mut adam = fresh_adam();
    let params = cm_o(2, 2, 1.0);
    let grads = cm_o(2, 3, 0.5);
    assert_eq!(adam.update(&params, &grads, 1), Err(NnError::ShapeMismatch));
    assert_eq!(adam.t, 0);
}

#[test]
fn test_adam_moment_mismatch() {
    // A gradient whose shape disagrees with the recorded moment state is a
    // usage error, not a shape error between the operands.
    let mut adam = fresh_adam();
    adam.init(3, 3);
    let params = cm_o(2, 2, 1.0);
    let grads = cm_o(2, 2, 0.5);
    assert_eq!(adam.update(&params, &grads, 1), Err(NnError::UninitializedState));
}

#[test]
fn test_update_styles_agree() {
    // The two update styles compute the same rule; on ordinary values the
    // reordered products agree, so one step from the same state must too.
    let mut adam_a = fresh_adam();
    let mut adam_b = fresh_adam();
    let params = cm_o(2, 2, 1.0);
    let grads = cm_o(2, 2, 0.5);
    let a = adam_a.update(&params, &grads, 1).unwrap();
    let b = adam_b.update_parameters(1, &params, &grads).unwrap();
    assert_eq!(a, b);
    assert_eq!(adam_a.m.as_ref().unwrap(), adam_b.m.as_ref().unwrap());
    assert_eq!(adam_a.v.as_ref().unwrap(), adam_b.v.as_ref().unwrap());
}

#[test]
fn test_default_adam() {
    let adam = AdamOptimizer::default();
    assert_eq!(f64::from_bits(adam.beta1), 0.9);
    assert_eq!(f64::from_bits(adam.beta2), 0.999);
    assert_eq!(f64::from_bits(adam.epsilon), 1e-8);
    assert_eq!(adam.t, 0);
    assert!(adam.m.is_none());
    assert!(adam.v.is_none());
    let LearningRateSchedule::Constant(c) = adam.learning_rate_schedule;
    assert_eq!(f64::from_bits(c), 0.001);
}

#[test]
fn test_learning_rate_schedule() {
    let schedule = LearningRateSchedule::Constant((0.25f64).to_bits());
    assert_eq!(f64::from_bits(schedule.get_learning_rate(1)), 0.25);
    assert_eq!(f64::from_bits(schedule.get_learning_rate(900)), 0.25);
}
