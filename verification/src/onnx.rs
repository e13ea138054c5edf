use vstd::prelude::*;

use crate::activation::{spec_op_type, Activation};
use crate::architecture::{Architecture, LayerShape};
use crate::names::{indexed_name, lemma_decimal_len, lemma_indexed_name_injective, spec_indexed_name};

verus! {

/// Which parameter tensor of a layer an initializer holds.
#[derive(Clone, Copy, Debug, PartialEq, Eq, Structural)]
pub enum ParamKind {
    Weights,
    Biases,
}

/// A constant tensor of the graph, holding the weights or the biases of a layer.
pub struct OnnxInitializer {
    pub name: String,
    pub layer: usize,
    pub kind: ParamKind,
    pub dims: Vec<i64>,
}

/// A node of the graph: an operator applied to named tensors.
pub struct OnnxNode {
    pub op_type: String,
    pub inputs: Vec<String>,
    pub output: String,
    /// The node carries the integer attribute `transB = 1`.
    pub trans_b: bool,
    /// The node carries the float attribute `alpha`, the negative slope of a leaky ReLU.
    pub leaky_alpha: bool,
}

/// Everything of the ONNX model of a network but the parameter values: the
/// graph's inputs and outputs, which tensors hold which parameters, and the
/// operators that connect them.
pub struct OnnxLayout {
    pub graph_name: String,
    pub producer_name: String,
    pub ir_version: i64,
    pub opset_version: i64,
    /// The element type of every tensor: 1 stands for 32-bit floats.
    pub elem_type: i32,
    pub input_name: String,
    /// `-1` marks the batch dimension as dynamic.
    pub input_dims: Vec<i64>,
    pub output_name: String,
    pub output_dims: Vec<i64>,
    pub initializers: Vec<OnnxInitializer>,
    pub nodes: Vec<OnnxNode>,
}

pub open spec fn spec_input_name() -> Seq<char> {
    seq!['i', 'n', 'p', 'u', 't']
}

pub open spec fn spec_output_name() -> Seq<char> {
    seq!['o', 'u', 't', 'p', 'u', 't']
}

pub open spec fn spec_weights_prefix() -> Seq<char> {
    seq!['w', '_']
}

pub open spec fn spec_biases_prefix() -> Seq<char> {
    seq!['b', '_']
}

pub open spec fn spec_gemm_prefix() -> Seq<char> {
    seq!['g', 'e', 'm', 'm', '_']
}

pub open spec fn spec_hidden_prefix() -> Seq<char> {
    seq!['o', 'u', 't', 'p', 'u', 't', '_']
}

pub open spec fn spec_gemm_op() -> Seq<char> {
    seq!['G', 'e', 'm', 'm']
}

pub open spec fn spec_graph_name() -> Seq<char> {
    seq!['N', 'e', 't', 'w', 'o', 'r', 'k', 'G', 'r', 'a', 'p', 'h']
}

pub open spec fn spec_producer_name() -> Seq<char> {
    seq!['n', 'e', 'u', 'r', 'a', 'l', 'n', 'e', 't', '_', 'r', 's']
}

/// The tensor that layer `i` reads: the graph input, or the output of the layer before.
pub open spec fn spec_layer_input_name(i: nat) -> Seq<char> {
    if i == 0 {
        spec_input_name()
    } else {
        spec_indexed_name(spec_hidden_prefix(), (i - 1) as nat)
    }
}

/// The tensor that layer `i` of `n` writes: the graph output for the last layer.
pub open spec fn spec_layer_output_name(i: nat, n: nat) -> Seq<char> {
    if i + 1 == n {
        spec_output_name()
    } else {
        spec_indexed_name(spec_hidden_prefix(), i)
    }
}

/// The weight matrix of layer `i`, stored with one row per neuron.
pub open spec fn spec_weights_initializer_ok(init: OnnxInitializer, i: nat, shape: LayerShape) -> bool {
    &&& init.name@ == spec_indexed_name(spec_weights_prefix(), i)
    &&& init.layer == i
    &&& init.kind == ParamKind::Weights
    &&& init.dims@ == seq![shape.outputs as i64, shape.inputs as i64]
}

/// The bias vector of layer `i`.
pub open spec fn spec_biases_initializer_ok(init: OnnxInitializer, i: nat, shape: LayerShape) -> bool {
    &&& init.name@ == spec_indexed_name(spec_biases_prefix(), i)
    &&& init.layer == i
    &&& init.kind == ParamKind::Biases
    &&& init.dims@ == seq![shape.outputs as i64]
}

/// The affine map of layer `i` of `n`: `input * w_i^T + b_i`, into `gemm_i`.
pub open spec fn spec_gemm_node_ok(node: OnnxNode, i: nat, n: nat) -> bool {
    &&& node.op_type@ == spec_gemm_op()
    &&& node.inputs@.len() == 3
    &&& node.inputs@[0]@ == spec_layer_input_name(i)
    &&& node.inputs@[1]@ == spec_indexed_name(spec_weights_prefix(), i)
    &&& node.inputs@[2]@ == spec_indexed_name(spec_biases_prefix(), i)
    &&& node.output@ == spec_indexed_name(spec_gemm_prefix(), i)
    &&& node.trans_b
    &&& !node.leaky_alpha
}

/// The activation of layer `i` of `n`, from `gemm_i` into the layer's output.
pub open spec fn spec_activation_node_ok(node: OnnxNode, i: nat, n: nat, act: Activation) -> bool {
    &&& node.op_type@ == spec_op_type(act)
    &&& node.inputs@.len() == 1
    &&& node.inputs@[0]@ == spec_indexed_name(spec_gemm_prefix(), i)
    &&& node.output@ == spec_layer_output_name(i, n)
    &&& !node.trans_b
    &&& node.leaky_alpha == (act is LeakyRelu)
}

/// Entries `2 i` and `2 i + 1` of the initializers and of the nodes are those of layer `i`.
pub open spec fn spec_layer_entries_ok(
    inits: Seq<OnnxInitializer>,
    nodes: Seq<OnnxNode>,
    layers: Seq<LayerShape>,
    i: int,
) -> bool {
    &&& spec_weights_initializer_ok(inits[2 * i], i as nat, layers[i])
    &&& spec_biases_initializer_ok(inits[2 * i + 1], i as nat, layers[i])
    &&& spec_gemm_node_ok(nodes[2 * i], i as nat, layers.len())
    &&& spec_activation_node_ok(nodes[2 * i + 1], i as nat, layers.len(), layers[i].activation)
}

/// The layout of the ONNX model of a network with the given layers.
pub open spec fn spec_layout_of(l: OnnxLayout, layers: Seq<LayerShape>) -> bool {
    &&& l.graph_name@ == spec_graph_name()
    &&& l.producer_name@ == spec_producer_name()
    &&& l.ir_version == 7
    &&& l.opset_version == 13
    &&& l.elem_type == 1
    &&& l.input_name@ == spec_input_name()
    &&& l.input_dims@ == seq![-1i64, layers[0].inputs as i64]
    &&& l.output_name@ == spec_output_name()
    &&& l.output_dims@ == seq![-1i64, layers.last().outputs as i64]
    &&& l.initializers@.len() == 2 * layers.len()
    &&& l.nodes@.len() == 2 * layers.len()
    &&& forall|i: int|
        0 <= i < layers.len() ==> #[trigger] spec_layer_entries_ok(
            l.initializers@,
            l.nodes@,
            layers,
            i,
        )
}

fn literal(s: &str) -> (r: String)
    ensures
        r@ == s@,
{
    String::from_str(s)
}

fn dims_2(a: usize, b: usize) -> (v: Vec<i64>)
    ensures
        v@ == seq![a as i64, b as i64],
{
    let mut v: Vec<i64> = Vec::new();
    v.push(a as i64);
    v.push(b as i64);
    assert(v@ =~= seq![a as i64, b as i64]);
    v
}

fn name_of_layer_input(i: usize) -> (s: String)
    ensures
        s@ == spec_layer_input_name(i as nat),
{
    if i == 0 {
        proof {
            reveal_strlit("input");
        }
        let s = literal("input");
        assert(s@ =~= spec_input_name());
        s
    } else {
        proof {
            reveal_strlit("output_");
        }
        assert("output_"@ =~= spec_hidden_prefix());
        indexed_name("output_", i - 1)
    }
}

fn name_of_layer_output(i: usize, n: usize) -> (s: String)
    requires
        i < n,
    ensures
        s@ == spec_layer_output_name(i as nat, n as nat),
{
    if i + 1 == n {
        proof {
            reveal_strlit("output");
        }
        let s = literal("output");
        assert(s@ =~= spec_output_name());
        s
    } else {
        proof {
            reveal_strlit("output_");
        }
        assert("output_"@ =~= spec_hidden_prefix());
        indexed_name("output_", i)
    }
}

fn weights_name(i: usize) -> (s: String)
    ensures
        s@ == spec_indexed_name(spec_weights_prefix(), i as nat),
{
    proof {
        reveal_strlit("w_");
    }
    assert("w_"@ =~= spec_weights_prefix());
    indexed_name("w_", i)
}

fn biases_name(i: usize) -> (s: String)
    ensures
        s@ == spec_indexed_name(spec_biases_prefix(), i as nat),
{
    proof {
        reveal_strlit("b_");
    }
    assert("b_"@ =~= spec_biases_prefix());
    indexed_name("b_", i)
}

fn gemm_name(i: usize) -> (s: String)
    ensures
        s@ == spec_indexed_name(spec_gemm_prefix(), i as nat),
{
    proof {
        reveal_strlit("gemm_");
    }
    assert("gemm_"@ =~= spec_gemm_prefix());
    indexed_name("gemm_", i)
}

/// Lays out the ONNX model of a network: the graph `NetworkGraph` reads the
/// tensor `input` (a dynamic batch of rows as wide as the network's input)
/// and writes `output`. Layer `i` is stored as the initializers `w_i` (one row
/// per neuron) and `b_i`, and computed by a `Gemm` node with `transB = 1` from
/// the previous layer's output into `gemm_i`, followed by the node of its
/// activation from `gemm_i` into `output_i`, or into `output` for the last layer.
pub fn onnx_layout(arch: &Architecture) -> (l: OnnxLayout)
    requires
        arch.wf(),
    ensures
        spec_layout_of(l, arch.spec_layers()),
{
    let layers = arch.layers();
    let n = layers.len();
    let ghost ls = arch.spec_layers();
    let mut initializers: Vec<OnnxInitializer> = Vec::new();
    let mut nodes: Vec<OnnxNode> = Vec::new();
    let mut i: usize = 0;
    while i < n
        invariant
            i <= n,
            n == ls.len(),
            layers@ == ls,
            initializers@.len() == 2 * i,
            nodes@.len() == 2 * i,
            forall|j: int| 0 <= j < i ==> #[trigger] spec_layer_entries_ok(initializers@, nodes@, ls, j),
        decreases n - i,
    {
        let shape = layers[i];
        let ghost old_inits = initializers@;
        let ghost old_nodes = nodes@;

        let mut bias_dims: Vec<i64> = Vec::new();
        bias_dims.push(shape.outputs as i64);
        assert(bias_dims@ =~= seq![shape.outputs as i64]);
        initializers.push(
            OnnxInitializer {
                name: weights_name(i),
                layer: i,
                kind: ParamKind::Weights,
                dims: dims_2(shape.outputs, shape.inputs),
            },
        );
        initializers.push(
            OnnxInitializer { name: biases_name(i), layer: i, kind: ParamKind::Biases, dims: bias_dims },
        );

        let mut gemm_inputs: Vec<String> = Vec::new();
        gemm_inputs.push(name_of_layer_input(i));
        gemm_inputs.push(weights_name(i));
        gemm_inputs.push(biases_name(i));
        proof {
            reveal_strlit("Gemm");
        }
        let gemm_op = literal("Gemm");
        assert(gemm_op@ =~= spec_gemm_op());
        nodes.push(
            OnnxNode {
                op_type: gemm_op,
                inputs: gemm_inputs,
                output: gemm_name(i),
                trans_b: true,
                leaky_alpha: false,
            },
        );

        let mut act_inputs: Vec<String> = Vec::new();
        act_inputs.push(gemm_name(i));
        let leaky = match shape.activation {
            Activation::LeakyRelu => true,
            _ => false,
        };
        nodes.push(
            OnnxNode {
                op_type: shape.activation.onnx_op_type(),
                inputs: act_inputs,
                output: name_of_layer_output(i, n),
                trans_b: false,
                leaky_alpha: leaky,
            },
        );

        assert forall|j: int| 0 <= j < i + 1 implies #[trigger] spec_layer_entries_ok(
            initializers@,
            nodes@,
            ls,
            j,
        ) by {
            if j < i {
                assert(spec_layer_entries_ok(old_inits, old_nodes, ls, j));
                assert(initializers@[2 * j] == old_inits[2 * j]);
                assert(initializers@[2 * j + 1] == old_inits[2 * j + 1]);
                assert(nodes@[2 * j] == old_nodes[2 * j]);
                assert(nodes@[2 * j + 1] == old_nodes[2 * j + 1]);
            }
        }
        i = i + 1;
    }
    proof {
        reveal_strlit("NetworkGraph");
        reveal_strlit("neuralnet_rs");
        reveal_strlit("input");
        reveal_strlit("output");
    }
    let graph_name = literal("NetworkGraph");
    assert(graph_name@ =~= spec_graph_name());
    let producer_name = literal("neuralnet_rs");
    assert(producer_name@ =~= spec_producer_name());
    let input_name = literal("input");
    assert(input_name@ =~= spec_input_name());
    let output_name = literal("output");
    assert(output_name@ =~= spec_output_name());
    let mut input_dims: Vec<i64> = Vec::new();
    input_dims.push(-1);
    input_dims.push(layers[0].inputs as i64);
    assert(input_dims@ =~= seq![-1i64, ls[0].inputs as i64]);
    let mut output_dims: Vec<i64> = Vec::new();
    output_dims.push(-1);
    output_dims.push(layers[n - 1].outputs as i64);
    assert(output_dims@ =~= seq![-1i64, ls.last().outputs as i64]);
    OnnxLayout {
        graph_name,
        producer_name,
        ir_version: 7,
        opset_version: 13,
        elem_type: 1,
        input_name,
        input_dims,
        output_name,
        output_dims,
        initializers,
        nodes,
    }
}

/// The nodes of the layout of a network form a single chain: the first node
/// reads the graph input, each further node reads what the node before it
/// writes, and the last node writes the graph output.
pub proof fn lemma_onnx_nodes_form_chain(l: OnnxLayout, layers: Seq<LayerShape>)
    requires
        layers.len() >= 1,
        spec_layout_of(l, layers),
    ensures
        l.nodes@[0].inputs@[0]@ == l.input_name@,
        forall|k: int|
            0 <= k < l.nodes@.len() - 1 ==> (#[trigger] l.nodes@[k + 1]).inputs@[0]@ == l.nodes@[k].output@,
        l.nodes@.last().output@ == l.output_name@,
{
    let n = layers.len();
    assert(spec_layer_entries_ok(l.initializers@, l.nodes@, layers, 0));
    assert(spec_layer_entries_ok(l.initializers@, l.nodes@, layers, n - 1));
    assert(l.nodes@.last() == l.nodes@[2 * (n - 1) + 1]);
    assert forall|k: int| 0 <= k < l.nodes@.len() - 1 implies (#[trigger] l.nodes@[k + 1]).inputs@[0]@
        == l.nodes@[k].output@ by {
        let i = k / 2;
        assert(spec_layer_entries_ok(l.initializers@, l.nodes@, layers, i));
        if k % 2 == 0 {
            assert(k == 2 * i);
        } else {
            assert(k == 2 * i + 1);
            assert(spec_layer_entries_ok(l.initializers@, l.nodes@, layers, i + 1));
        }
    }
}

/// The name that the node at `p` of the layout writes.
proof fn lemma_node_output_name(l: OnnxLayout, layers: Seq<LayerShape>, p: int)
    requires
        spec_layout_of(l, layers),
        0 <= p < l.nodes@.len(),
    ensures
        p % 2 == 0 ==> l.nodes@[p].output@ == spec_indexed_name(spec_gemm_prefix(), (p / 2) as nat),
        p % 2 == 1 ==> l.nodes@[p].output@ == spec_layer_output_name((p / 2) as nat, layers.len()),
{
    assert(spec_layer_entries_ok(l.initializers@, l.nodes@, layers, p / 2));
}

/// The name of the initializer at `p` of the layout.
proof fn lemma_initializer_name(l: OnnxLayout, layers: Seq<LayerShape>, p: int)
    requires
        spec_layout_of(l, layers),
        0 <= p < l.initializers@.len(),
    ensures
        p % 2 == 0 ==> l.initializers@[p].name@ == spec_indexed_name(spec_weights_prefix(), (p / 2) as nat),
        p % 2 == 1 ==> l.initializers@[p].name@ == spec_indexed_name(spec_biases_prefix(), (p / 2) as nat),
{
    assert(spec_layer_entries_ok(l.initializers@, l.nodes@, layers, p / 2));
}

/// Indexed names with prefixes that differ in their first character differ.
proof fn lemma_first_char_differs(p1: Seq<char>, a: nat, p2: Seq<char>, b: nat)
    requires
        p1.len() >= 1,
        p2.len() >= 1,
        p1[0] != p2[0],
    ensures
        spec_indexed_name(p1, a) != spec_indexed_name(p2, b),
{
    assert(spec_indexed_name(p1, a)[0] == p1[0]);
    assert(spec_indexed_name(p2, b)[0] == p2[0]);
}

/// Two layer outputs of distinct layers have distinct names.
proof fn lemma_layer_outputs_differ(i: nat, j: nat, n: nat)
    requires
        i < n,
        j < n,
        i != j,
    ensures
        spec_layer_output_name(i, n) != spec_layer_output_name(j, n),
{
    if i + 1 == n {
        lemma_decimal_len(j);
        assert(spec_layer_output_name(j, n).len() >= 8);
    } else if j + 1 == n {
        lemma_decimal_len(i);
        assert(spec_layer_output_name(i, n).len() >= 8);
    } else if spec_layer_output_name(i, n) == spec_layer_output_name(j, n) {
        lemma_indexed_name_injective(spec_hidden_prefix(), i, j);
    }
}

/// Every tensor of the layout of a network has a name of its own: the graph
/// input, the initializers and the outputs of the nodes are pairwise distinct.
pub proof fn lemma_onnx_tensor_names_distinct(l: OnnxLayout, layers: Seq<LayerShape>)
    requires
        layers.len() >= 1,
        spec_layout_of(l, layers),
    ensures
        forall|p: int, q: int|
            0 <= p < l.nodes@.len() && 0 <= q < l.nodes@.len() && p != q ==> (#[trigger] l.nodes@[p]).output@
                != (#[trigger] l.nodes@[q]).output@,
        forall|p: int, q: int|
            0 <= p < l.initializers@.len() && 0 <= q < l.initializers@.len() && p != q
                ==> (#[trigger] l.initializers@[p]).name@ != (#[trigger] l.initializers@[q]).name@,
        forall|p: int, q: int|
            0 <= p < l.initializers@.len() && 0 <= q < l.nodes@.len() ==> (
            #[trigger] l.initializers@[p]).name@ != (#[trigger] l.nodes@[q]).output@,
        forall|p: int|
            0 <= p < l.nodes@.len() ==> (#[trigger] l.nodes@[p]).output@ != l.input_name@,
        forall|p: int|
            0 <= p < l.initializers@.len() ==> (#[trigger] l.initializers@[p]).name@ != l.input_name@,
{
    let n = layers.len();
    let g = spec_gemm_prefix();
    let w = spec_weights_prefix();
    let b = spec_biases_prefix();
    let h = spec_hidden_prefix();
    assert forall|p: int, q: int|
        0 <= p < l.nodes@.len() && 0 <= q < l.nodes@.len() && p != q implies (#[trigger] l.nodes@[p]).output@
        != (#[trigger] l.nodes@[q]).output@ by {
        lemma_node_output_name(l, layers, p);
        lemma_node_output_name(l, layers, q);
        let i = (p / 2) as nat;
        let j = (q / 2) as nat;
        if p % 2 == 0 && q % 2 == 0 {
            if l.nodes@[p].output@ == l.nodes@[q].output@ {
                lemma_indexed_name_injective(g, i, j);
            }
        } else if p % 2 == 1 && q % 2 == 1 {
            lemma_layer_outputs_differ(i, j, n);
        } else if p % 2 == 0 {
            if j + 1 == n {
                assert(spec_indexed_name(g, i)[0] == 'g');
            } else {
                lemma_first_char_differs(g, i, h, j);
            }
        } else {
            if i + 1 == n {
                assert(spec_indexed_name(g, j)[0] == 'g');
            } else {
                lemma_first_char_differs(h, i, g, j);
            }
        }
    }
    assert forall|p: int, q: int|
        0 <= p < l.initializers@.len() && 0 <= q < l.initializers@.len() && p != q
            implies (#[trigger] l.initializers@[p]).name@ != (#[trigger] l.initializers@[q]).name@ by {
        lemma_initializer_name(l, layers, p);
        lemma_initializer_name(l, layers, q);
        let i = (p / 2) as nat;
        let j = (q / 2) as nat;
        if p % 2 == q % 2 {
            if l.initializers@[p].name@ == l.initializers@[q].name@ {
                if p % 2 == 0 {
                    lemma_indexed_name_injective(w, i, j);
                } else {
                    lemma_indexed_name_injective(b, i, j);
                }
            }
        } else if p % 2 == 0 {
            lemma_first_char_differs(w, i, b, j);
        } else {
            lemma_first_char_differs(b, i, w, j);
        }
    }
    assert forall|p: int, q: int|
        0 <= p < l.initializers@.len() && 0 <= q < l.nodes@.len() implies (
        #[trigger] l.initializers@[p]).name@ != (#[trigger] l.nodes@[q]).output@ by {
        lemma_initializer_name(l, layers, p);
        lemma_node_output_name(l, layers, q);
        let i = (p / 2) as nat;
        let j = (q / 2) as nat;
        let first = l.initializers@[p].name@[0];
        assert(first == 'w' || first == 'b');
        assert(l.nodes@[q].output@[0] == 'g' || l.nodes@[q].output@[0] == 'o');
    }
    assert forall|p: int| 0 <= p < l.nodes@.len() implies (#[trigger] l.nodes@[p]).output@
        != l.input_name@ by {
        lemma_node_output_name(l, layers, p);
        assert(l.input_name@[0] == 'i');
        assert(l.nodes@[p].output@[0] == 'g' || l.nodes@[p].output@[0] == 'o');
    }
    assert forall|p: int| 0 <= p < l.initializers@.len() implies (
    #[trigger] l.initializers@[p]).name@ != l.input_name@ by {
        lemma_initializer_name(l, layers, p);
        assert(l.input_name@[0] == 'i');
        let first = l.initializers@[p].name@[0];
        assert(first == 'w' || first == 'b');
    }
}

/// The tensor shapes of the layout of a well-formed architecture agree: the
/// weight matrix of the first layer has as many columns as the graph input
/// has features, that of each further layer as many as the layer before has
/// neurons (rows of its weight matrix), each bias vector has one entry per
/// neuron, and the graph output has as many features as the last layer has neurons.
pub proof fn lemma_onnx_shapes_agree(a: Architecture, l: OnnxLayout)
    requires
        a.wf(),
        spec_layout_of(l, a.spec_layers()),
    ensures
        l.initializers@[0].dims@[1] == l.input_dims@[1],
        forall|i: int|
            0 < i < a.spec_layers().len() ==> (#[trigger] l.initializers@[2 * i]).dims@[1]
                == l.initializers@[2 * (i - 1)].dims@[0],
        forall|i: int|
            0 <= i < a.spec_layers().len() ==> (#[trigger] l.initializers@[2 * i + 1]).dims@[0]
                == l.initializers@[2 * i].dims@[0],
        l.initializers@[2 * (a.spec_layers().len() - 1)].dims@[0] == l.output_dims@[1],
{
    let layers = a.spec_layers();
    let n = layers.len();
    assert(spec_layer_entries_ok(l.initializers@, l.nodes@, layers, 0));
    assert(spec_layer_entries_ok(l.initializers@, l.nodes@, layers, n - 1));
    assert forall|i: int| 0 < i < n implies (#[trigger] l.initializers@[2 * i]).dims@[1]
        == l.initializers@[2 * (i - 1)].dims@[0] by {
        assert(spec_layer_entries_ok(l.initializers@, l.nodes@, layers, i));
        assert(spec_layer_entries_ok(l.initializers@, l.nodes@, layers, i - 1));
        assert(layers[i - 1].outputs == layers[(i - 1) + 1].inputs);
    }
    assert forall|i: int| 0 <= i < n implies (#[trigger] l.initializers@[2 * i + 1]).dims@[0]
        == l.initializers@[2 * i].dims@[0] by {
        assert(spec_layer_entries_ok(l.initializers@, l.nodes@, layers, i));
    }
}

} // verus!
