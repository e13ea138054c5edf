use neuralnet_rs::activation::Activation;
use neuralnet_rs::architecture::Architecture;
use neuralnet_rs::loss::Loss;
use neuralnet_rs::onnx::{onnx_layout, OnnxLayout, ParamKind};

fn layout() -> OnnxLayout {
    let a = Architecture::new(2, &[3], &[Activation::LeakyRelu], 1, Activation::Sigmoid, Loss::Mse).unwrap();
    onnx_layout(&a)
}

#[test]
fn model_metadata() {
    let l = layout();
    assert_eq!(l.graph_name, "NetworkGraph");
    assert_eq!(l.producer_name, "neuralnet_rs");
    assert_eq!(l.ir_version, 7);
    assert_eq!(l.opset_version, 13);
    assert_eq!(l.elem_type, 1);
    assert_eq!(l.input_name, "input");
    assert_eq!(l.input_dims, vec![-1, 2]);
    assert_eq!(l.output_name, "output");
    assert_eq!(l.output_dims, vec![-1, 1]);
}

#[test]
fn initializers_hold_layer_parameters() {
    let l = layout();
    let got: Vec<(String, usize, ParamKind, Vec<i64>)> = l
        .initializers
        .iter()
        .map(|i| (i.name.clone(), i.layer, i.kind, i.dims.clone()))
        .collect();
    assert_eq!(
        got,
        vec![
            ("w_0".to_string(), 0, ParamKind::Weights, vec![3, 2]),
            ("b_0".to_string(), 0, ParamKind::Biases, vec![3]),
            ("w_1".to_string(), 1, ParamKind::Weights, vec![1, 3]),
            ("b_1".to_string(), 1, ParamKind::Biases, vec![1]),
        ]
    );
}

#[test]
fn nodes_alternate_gemm_and_activation() {
    let l = layout();
    let got: Vec<(String, Vec<String>, String, bool, bool)> = l
        .nodes
        .iter()
        .map(|n| (n.op_type.clone(), n.inputs.clone(), n.output.clone(), n.trans_b, n.leaky_alpha))
        .collect();
    let s = |x: &str| x.to_string();
    assert_eq!(
        got,
        vec![
            (s("Gemm"), vec![s("input"), s("w_0"), s("b_0")], s("gemm_0"), true, false),
            (s("LeakyRelu"), vec![s("gemm_0")], s("output_0"), false, true),
            (s("Gemm"), vec![s("output_0"), s("w_1"), s("b_1")], s("gemm_1"), true, false),
            (s("Sigmoid"), vec![s("gemm_1")], s("output"), false, false),
        ]
    );
}

#[test]
fn nodes_form_a_chain_and_names_are_distinct() {
    let a = Architecture::new(784, &[128, 64, 32], &[Activation::Relu, Activation::Tanh, Activation::Identity], 10, Activation::Softmax, Loss::CrossEntropy).unwrap();
    let l = onnx_layout(&a);
    assert_eq!(l.nodes.len(), 8);
    assert_eq!(l.nodes[0].inputs[0], l.input_name);
    for k in 0..l.nodes.len() - 1 {
        assert_eq!(l.nodes[k + 1].inputs[0], l.nodes[k].output);
    }
    assert_eq!(l.nodes[l.nodes.len() - 1].output, l.output_name);
    let mut names: Vec<String> = vec![l.input_name.clone()];
    names.extend(l.initializers.iter().map(|i| i.name.clone()));
    names.extend(l.nodes.iter().map(|n| n.output.clone()));
    let count = names.len();
    names.sort();
    names.dedup();
    assert_eq!(names.len(), count);
}

#[test]
fn single_layer_writes_graph_output() {
    let a = Architecture::new(1, &[], &[], 1, Activation::Identity, Loss::Mse).unwrap();
    let l = onnx_layout(&a);
    assert_eq!(l.nodes.len(), 2);
    assert_eq!(l.nodes[1].op_type, "Identity");
    assert_eq!(l.nodes[1].output, "output");
}
