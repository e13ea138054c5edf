use neuralnet_rs::architecture::{Architecture, ArchitectureError, LayerShape};
use neuralnet_rs::activation::Activation;
use neuralnet_rs::loss::Loss;

fn shape(inputs: usize, outputs: usize, activation: Activation) -> LayerShape {
    LayerShape { inputs, outputs, activation }
}

#[test]
fn softmax_mse() {
    let r = Architecture::new(2, &[2], &[Activation::Tanh], 1, Activation::Softmax, Loss::Mse);
    assert_eq!(r.err(), Some(ArchitectureError::SoftmaxWithMse));
}

#[test]
fn softmax_hidden() {
    let r = Architecture::new(2, &[2], &[Activation::Softmax], 1, Activation::Sigmoid, Loss::CrossEntropy);
    assert_eq!(r.err(), Some(ArchitectureError::SoftmaxInHidden));
}

#[test]
fn hidden_layer_mismatch() {
    let r = Architecture::new(2, &[2, 2], &[Activation::LeakyRelu], 1, Activation::Tanh, Loss::Mse);
    assert_eq!(r.err(), Some(ArchitectureError::HiddenLengthMismatch));
}

#[test]
fn length_mismatch_is_reported_before_softmax_rules() {
    let r = Architecture::new(2, &[2], &[Activation::Softmax, Activation::Relu], 1, Activation::Softmax, Loss::Mse);
    assert_eq!(r.err(), Some(ArchitectureError::HiddenLengthMismatch));
}

#[test]
fn softmax_hidden_is_reported_before_softmax_with_mse() {
    let r = Architecture::new(2, &[2], &[Activation::Softmax], 1, Activation::Softmax, Loss::Mse);
    assert_eq!(r.err(), Some(ArchitectureError::SoftmaxInHidden));
}

#[test]
fn softmax_output_with_cross_entropy_is_accepted() {
    let a = Architecture::new(784, &[128, 64], &[Activation::LeakyRelu, Activation::Tanh], 10, Activation::Softmax, Loss::CrossEntropy).unwrap();
    assert_eq!(
        a.layers(),
        &vec![
            shape(784, 128, Activation::LeakyRelu),
            shape(128, 64, Activation::Tanh),
            shape(64, 10, Activation::Softmax),
        ]
    );
    assert_eq!(a.loss_function(), Loss::CrossEntropy);
    assert_eq!(a.input_width(), 784);
    assert_eq!(a.output_width(), 10);
}

#[test]
fn passthrough_network_has_one_square_layer() {
    let a = Architecture::new(1, &[], &[], 1, Activation::Identity, Loss::Mse).unwrap();
    assert_eq!(a.layers(), &vec![shape(1, 1, Activation::Identity)]);
    assert_eq!(a.output_width(), 1);
    assert_eq!(a.neuron_widths(), vec![1, 1]);
}

#[test]
fn xor_network_layers_chain() {
    let a = Architecture::new(2, &[4, 4], &[Activation::Tanh, Activation::Tanh], 1, Activation::Sigmoid, Loss::Mse).unwrap();
    let layers = a.layers();
    assert_eq!(layers.len(), 3);
    for i in 0..layers.len() - 1 {
        assert_eq!(layers[i].outputs, layers[i + 1].inputs);
    }
    assert_eq!(layers[0].inputs, 2);
    assert_eq!(layers[2].outputs, 1);
    assert_eq!(a.neuron_widths(), vec![2, 4, 4, 1]);
}

#[test]
fn weight_counts() {
    let a = Architecture::new(3, &[5], &[Activation::Relu], 2, Activation::Sigmoid, Loss::Mse).unwrap();
    let counts: Vec<usize> = a.layers().iter().map(|l| l.weight_count()).collect();
    assert_eq!(counts, vec![15, 10]);
}

#[test]
fn backprop_never_meets_softmax_derivative() {
    let a = Architecture::new(4, &[3, 3], &[Activation::Relu, Activation::Sigmoid], 2, Activation::Softmax, Loss::CrossEntropy).unwrap();
    let layers = a.layers();
    for l in &layers[..layers.len() - 1] {
        assert!(l.activation.derivative_defined());
    }
    let out = layers[layers.len() - 1].activation;
    let rule = a.loss_function().delta_rule(out);
    assert!(!rule.uses_output_derivative() || out.derivative_defined());
}
