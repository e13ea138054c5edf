use neuralnet_rs::activation::{Activation, WeightInit};
use neuralnet_rs::loss::{DeltaRule, Loss};
use neuralnet_rs::names::indexed_name;

const ALL: [Activation; 6] = [
    Activation::Relu,
    Activation::LeakyRelu,
    Activation::Sigmoid,
    Activation::Softmax,
    Activation::Tanh,
    Activation::Identity,
];

#[test]
fn onnx_operator_names() {
    let names: Vec<String> = ALL.iter().map(|a| a.onnx_op_type()).collect();
    assert_eq!(names, vec!["Relu", "LeakyRelu", "Sigmoid", "Softmax", "Tanh", "Identity"]);
}

#[test]
fn only_softmax_lacks_a_derivative() {
    for a in ALL {
        assert_eq!(a.derivative_defined(), a != Activation::Softmax);
    }
}

#[test]
fn weight_initialisation_schemes() {
    assert_eq!(Activation::Relu.weight_init(), WeightInit::He);
    assert_eq!(Activation::LeakyRelu.weight_init(), WeightInit::He);
    assert_eq!(Activation::Sigmoid.weight_init(), WeightInit::Xavier);
    assert_eq!(Activation::Softmax.weight_init(), WeightInit::Xavier);
    assert_eq!(Activation::Tanh.weight_init(), WeightInit::Xavier);
    assert_eq!(Activation::Identity.weight_init(), WeightInit::Xavier);
}

#[test]
fn initialisation_fans() {
    assert_eq!(WeightInit::He.fan(784, 128), 784);
    assert_eq!(WeightInit::Xavier.fan(784, 128), 912);
    assert_eq!(WeightInit::Xavier.fan(0, 0), 0);
}

#[test]
fn output_error_rules() {
    assert_eq!(Loss::CrossEntropy.delta_rule(Activation::Softmax), DeltaRule::OutputMinusTarget);
    assert_eq!(Loss::CrossEntropy.delta_rule(Activation::Sigmoid), DeltaRule::CrossEntropyChain);
    assert_eq!(Loss::Mse.delta_rule(Activation::Sigmoid), DeltaRule::MseChain);
    assert_eq!(Loss::Mse.delta_rule(Activation::Softmax), DeltaRule::MseChain);
    assert!(!DeltaRule::OutputMinusTarget.uses_output_derivative());
    assert!(DeltaRule::CrossEntropyChain.uses_output_derivative());
    assert!(DeltaRule::MseChain.uses_output_derivative());
}

#[test]
fn loss_divisors() {
    assert_eq!(Loss::Mse.loss_divisor(64, 10), 640);
    assert_eq!(Loss::CrossEntropy.loss_divisor(64, 10), 1);
}

#[test]
fn indexed_names() {
    assert_eq!(indexed_name("w_", 0), "w_0");
    assert_eq!(indexed_name("gemm_", 7), "gemm_7");
    assert_eq!(indexed_name("output_", 12), "output_12");
    assert_eq!(indexed_name("b_", 1005), "b_1005");
    assert_eq!(indexed_name("x", usize::MAX), format!("x{}", usize::MAX));
}
