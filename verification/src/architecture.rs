use vstd::prelude::*;

use crate::activation::Activation;
use crate::loss::{spec_delta_rule, spec_uses_output_derivative, Loss};

verus! {

/// The shape of one dense layer: it maps `inputs` values to `outputs` values
/// (its weight matrix has `outputs` rows and `inputs` columns, its bias vector
/// `outputs` entries) and then applies `activation`.
#[derive(Clone, Copy, Debug, PartialEq, Eq, Structural)]
pub struct LayerShape {
    pub inputs: usize,
    pub outputs: usize,
    pub activation: Activation,
}

/// Why a requested network cannot be built.
#[derive(Clone, Copy, Debug, PartialEq, Eq, Structural)]
pub enum ArchitectureError {
    /// The hidden neuron counts and the hidden activations differ in length.
    HiddenLengthMismatch,
    /// A hidden layer uses softmax, whose derivative back-propagation cannot take.
    SoftmaxInHidden,
    /// A softmax output layer is trained against the mean squared error.
    SoftmaxWithMse,
}

/// The layers, in order, and the loss function of a network.
pub struct Architecture {
    layers: Vec<LayerShape>,
    loss: Loss,
}

/// The number of inputs of layer `i` of a network built from `c_inputs`
/// inputs and the hidden neuron counts `hidden`.
pub open spec fn spec_layer_inputs(c_inputs: usize, hidden: Seq<usize>, i: int) -> usize {
    if i == 0 {
        c_inputs
    } else {
        hidden[i - 1]
    }
}

/// The number of outputs of layer `i` of a network with the hidden neuron
/// counts `hidden` and `c_outputs` outputs.
pub open spec fn spec_layer_outputs(hidden: Seq<usize>, c_outputs: usize, i: int) -> usize {
    if i < hidden.len() {
        hidden[i]
    } else {
        c_outputs
    }
}

/// The layers of the network with `c_inputs` inputs, one hidden layer per
/// entry of `hidden` (with the activation at the same index of `acts`), and
/// an output layer of `c_outputs` neurons with the activation `output`.
pub open spec fn spec_planned_layers(
    c_inputs: usize,
    hidden: Seq<usize>,
    acts: Seq<Activation>,
    c_outputs: usize,
    output: Activation,
) -> Seq<LayerShape> {
    Seq::new(
        hidden.len() + 1,
        |i: int|
            LayerShape {
                inputs: spec_layer_inputs(c_inputs, hidden, i),
                outputs: spec_layer_outputs(hidden, c_outputs, i),
                activation: if i < hidden.len() {
                    acts[i]
                } else {
                    output
                },
            },
    )
}

/// The weight count of every planned layer fits in a `usize`.
pub open spec fn spec_weight_counts_fit(c_inputs: usize, hidden: Seq<usize>, c_outputs: usize) -> bool {
    forall|i: int|
        0 <= i <= hidden.len() ==> #[trigger] spec_layer_inputs(c_inputs, hidden, i) * spec_layer_outputs(
            hidden,
            c_outputs,
            i,
        ) <= usize::MAX
}

/// The first rule that a requested network breaks, if any.
pub open spec fn spec_architecture_error(
    hidden_len: nat,
    acts: Seq<Activation>,
    output: Activation,
    loss: Loss,
) -> Option<ArchitectureError> {
    if hidden_len != acts.len() {
        Some(ArchitectureError::HiddenLengthMismatch)
    } else if exists|i: int| 0 <= i < acts.len() && #[trigger] acts[i] is Softmax {
        Some(ArchitectureError::SoftmaxInHidden)
    } else if output is Softmax && loss is Mse {
        Some(ArchitectureError::SoftmaxWithMse)
    } else {
        None
    }
}

/// A sequence of layers that can be trained against `loss`: there is at least
/// one layer, each layer consumes what the one before it produces, only the
/// output layer may use softmax and then only with cross entropy, and every
/// weight count fits in a `usize`.
pub open spec fn spec_well_formed(layers: Seq<LayerShape>, loss: Loss) -> bool {
    &&& layers.len() >= 1
    &&& forall|i: int|
        0 <= i < layers.len() - 1 ==> #[trigger] layers[i].outputs == layers[i + 1].inputs
    &&& forall|i: int| 0 <= i < layers.len() - 1 ==> !(#[trigger] layers[i].activation is Softmax)
    &&& (layers.last().activation is Softmax ==> loss is CrossEntropy)
    &&& forall|i: int|
        0 <= i < layers.len() ==> #[trigger] layers[i].inputs * layers[i].outputs <= usize::MAX
}

/// The width of every layer of neuron values in a forward pass: the input
/// width, then the output width of each layer in turn.
pub open spec fn spec_neuron_widths(layers: Seq<LayerShape>) -> Seq<usize> {
    Seq::new(
        layers.len() + 1,
        |i: int|
            if i == 0 {
                layers[0].inputs
            } else {
                layers[i - 1].outputs
            },
    )
}

impl LayerShape {
    /// The number of entries of the weight matrix of this layer.
    pub fn weight_count(&self) -> (n: usize)
        requires
            self.inputs * self.outputs <= usize::MAX,
        ensures
            n == self.inputs * self.outputs,
    {
        self.inputs * self.outputs
    }
}

impl Architecture {
    pub closed spec fn spec_layers(self) -> Seq<LayerShape> {
        self.layers@
    }

    pub closed spec fn spec_loss(self) -> Loss {
        self.loss
    }

    pub open spec fn wf(self) -> bool {
        spec_well_formed(self.spec_layers(), self.spec_loss())
    }

    /// Checks a requested network and lays out its layers: the first takes
    /// `c_inputs` inputs, each hidden layer has the neuron count and the
    /// activation at its index, and the output layer has `c_outputs` neurons
    /// and `outputs_activation`. Each layer takes as many inputs as the one
    /// before it has neurons.
    pub fn new(
        c_inputs: usize,
        c_hidden_layers: &[usize],
        hidden_activation: &[Activation],
        c_outputs: usize,
        outputs_activation: Activation,
        loss_function: Loss,
    ) -> (r: Result<Architecture, ArchitectureError>)
        requires
            spec_weight_counts_fit(c_inputs, c_hidden_layers@, c_outputs),
        ensures
            r is Ok <==> spec_architecture_error(
                c_hidden_layers@.len(),
                hidden_activation@,
                outputs_activation,
                loss_function,
            ) is None,
            r is Ok <==> {
                &&& c_hidden_layers@.len() == hidden_activation@.len()
                &&& forall|i: int|
                    0 <= i < hidden_activation@.len() ==> !(#[trigger] hidden_activation@[i] is Softmax)
                &&& !(outputs_activation is Softmax && loss_function is Mse)
            },
            r == Err::<Architecture, ArchitectureError>(ArchitectureError::SoftmaxWithMse)
                ==> outputs_activation is Softmax && loss_function is Mse,
            r matches Err(e) ==> Some(e) == spec_architecture_error(
                c_hidden_layers@.len(),
                hidden_activation@,
                outputs_activation,
                loss_function,
            ),
            r matches Ok(a) ==> {
                &&& a.wf()
                &&& a.spec_layers() == spec_planned_layers(
                    c_inputs,
                    c_hidden_layers@,
                    hidden_activation@,
                    c_outputs,
                    outputs_activation,
                )
                &&& a.spec_loss() == loss_function
            },
    {
        let n = c_hidden_layers.len();
        if n != hidden_activation.len() {
            return Err(ArchitectureError::HiddenLengthMismatch);
        }
        let mut k: usize = 0;
        while k < n
            invariant
                k <= n,
                n == hidden_activation@.len(),
                n == c_hidden_layers@.len(),
                forall|j: int| 0 <= j < k ==> !(#[trigger] hidden_activation@[j] is Softmax),
            decreases n - k,
        {
            if hidden_activation[k].derivative_defined() {
                k = k + 1;
            } else {
                assert(hidden_activation@[k as int] is Softmax);
                assert(exists|j: int|
                    0 <= j < hidden_activation@.len() && #[trigger] hidden_activation@[j] is Softmax);
                return Err(ArchitectureError::SoftmaxInHidden);
            }
        }
        match (outputs_activation, loss_function) {
            (Activation::Softmax, Loss::Mse) => {
                return Err(ArchitectureError::SoftmaxWithMse);
            },
            _ => {},
        }
        let ghost planned = spec_planned_layers(
            c_inputs,
            c_hidden_layers@,
            hidden_activation@,
            c_outputs,
            outputs_activation,
        );
        let mut layers: Vec<LayerShape> = Vec::new();
        let mut c_prev: usize = c_inputs;
        let mut i: usize = 0;
        while i < n
            invariant
                i <= n,
                n == c_hidden_layers@.len(),
                n == hidden_activation@.len(),
                planned == spec_planned_layers(
                    c_inputs,
                    c_hidden_layers@,
                    hidden_activation@,
                    c_outputs,
                    outputs_activation,
                ),
                c_prev == spec_layer_inputs(c_inputs, c_hidden_layers@, i as int),
                layers@ =~= planned.take(i as int),
            decreases n - i,
        {
            let c_curr = c_hidden_layers[i];
            layers.push(LayerShape { inputs: c_prev, outputs: c_curr, activation: hidden_activation[i] });
            assert(layers@ =~= planned.take(i + 1));
            c_prev = c_curr;
            i = i + 1;
        }
        layers.push(LayerShape { inputs: c_prev, outputs: c_outputs, activation: outputs_activation });
        assert(layers@ =~= planned);
        let a = Architecture { layers, loss: loss_function };
        proof {
            lemma_planned_layers_well_formed(
                c_inputs,
                c_hidden_layers@,
                hidden_activation@,
                c_outputs,
                outputs_activation,
                loss_function,
            );
        }
        Ok(a)
    }

    /// The layers, from the one that takes the network's inputs to the output layer.
    pub fn layers(&self) -> (l: &Vec<LayerShape>)
        ensures
            l@ == self.spec_layers(),
    {
        &self.layers
    }

    /// The loss function the network is trained against.
    pub fn loss_function(&self) -> (l: Loss)
        ensures
            l == self.spec_loss(),
    {
        self.loss
    }

    /// The number of inputs the network takes.
    pub fn input_width(&self) -> (w: usize)
        requires
            self.wf(),
        ensures
            w == self.spec_layers()[0].inputs,
    {
        self.layers[0].inputs
    }

    /// The number of outputs the network produces.
    pub fn output_width(&self) -> (w: usize)
        requires
            self.wf(),
        ensures
            w == self.spec_layers().last().outputs,
    {
        self.layers[self.layers.len() - 1].outputs
    }

    /// The widths of the neuron values of a forward pass, inputs first.
    pub fn neuron_widths(&self) -> (w: Vec<usize>)
        requires
            self.wf(),
        ensures
            w@ == spec_neuron_widths(self.spec_layers()),
    {
        let n = self.layers.len();
        let mut w: Vec<usize> = Vec::new();
        w.push(self.layers[0].inputs);
        let mut i: usize = 0;
        while i < n
            invariant
                i <= n,
                n == self.spec_layers().len(),
                n >= 1,
                w@ =~= spec_neuron_widths(self.spec_layers()).take(i + 1),
            decreases n - i,
        {
            w.push(self.layers[i].outputs);
            i = i + 1;
            assert(w@ =~= spec_neuron_widths(self.spec_layers()).take(i + 1));
        }
        assert(w@ =~= spec_neuron_widths(self.spec_layers()));
        w
    }
}

/// The planned layers of a request that breaks no rule form a well-formed
/// architecture.
proof fn lemma_planned_layers_well_formed(
    c_inputs: usize,
    hidden: Seq<usize>,
    acts: Seq<Activation>,
    c_outputs: usize,
    output: Activation,
    loss: Loss,
)
    requires
        spec_weight_counts_fit(c_inputs, hidden, c_outputs),
        spec_architecture_error(hidden.len(), acts, output, loss) is None,
    ensures
        spec_well_formed(spec_planned_layers(c_inputs, hidden, acts, c_outputs, output), loss),
{
    let layers = spec_planned_layers(c_inputs, hidden, acts, c_outputs, output);
    assert forall|i: int| 0 <= i < layers.len() - 1 implies #[trigger] layers[i].outputs
        == layers[i + 1].inputs by {}
    assert forall|i: int| 0 <= i < layers.len() - 1 implies !(#[trigger] layers[i].activation is Softmax) by {
        assert(!(acts[i] is Softmax));
    }
    assert forall|i: int| 0 <= i < layers.len() implies #[trigger] layers[i].inputs * layers[i].outputs
        <= usize::MAX by {
        assert(spec_layer_inputs(c_inputs, hidden, i) * spec_layer_outputs(hidden, c_outputs, i)
            <= usize::MAX);
    }
}

/// A network built from a request that breaks no rule has one layer per
/// hidden neuron count plus the output layer; it takes `c_inputs` inputs and
/// produces `c_outputs` outputs through `output`, and hidden layer `i` has the
/// neuron count and the activation at index `i` of the request.
pub proof fn lemma_planned_network_ends(
    c_inputs: usize,
    hidden: Seq<usize>,
    acts: Seq<Activation>,
    c_outputs: usize,
    output: Activation,
    loss: Loss,
)
    requires
        spec_architecture_error(hidden.len(), acts, output, loss) is None,
    ensures
        ({
            let layers = spec_planned_layers(c_inputs, hidden, acts, c_outputs, output);
            &&& layers.len() == hidden.len() + 1
            &&& layers[0].inputs == c_inputs
            &&& layers.last().outputs == c_outputs
            &&& layers.last().activation == output
            &&& forall|i: int|
                0 <= i < hidden.len() ==> #[trigger] layers[i].outputs == hidden[i]
                    && layers[i].activation == acts[i]
        }),
{
}

/// Back-propagation through a well-formed architecture only ever takes
/// derivatives that exist: every hidden activation has one, and the output
/// activation has one whenever the output error rule of the loss uses it.
pub proof fn lemma_backprop_derivatives_defined(a: Architecture)
    requires
        a.wf(),
    ensures
        forall|i: int|
            0 <= i < a.spec_layers().len() - 1
                ==> (#[trigger] a.spec_layers()[i]).activation.spec_derivative_defined(),
        spec_uses_output_derivative(spec_delta_rule(a.spec_loss(), a.spec_layers().last().activation))
            ==> a.spec_layers().last().activation.spec_derivative_defined(),
{
    let layers = a.spec_layers();
    assert forall|i: int| 0 <= i < layers.len() - 1 implies (#[trigger] layers[i]).activation.spec_derivative_defined() by {
        assert(!(layers[i].activation is Softmax));
    }
}

/// In a forward pass through a well-formed architecture, the neuron values
/// fed to layer `i` are as wide as that layer's input count, and the last
/// neuron values are as wide as the network's output.
pub proof fn lemma_neuron_widths_feed_layers(a: Architecture)
    requires
        a.wf(),
    ensures
        forall|i: int|
            0 <= i < a.spec_layers().len() ==> #[trigger] spec_neuron_widths(a.spec_layers())[i]
                == a.spec_layers()[i].inputs,
        spec_neuron_widths(a.spec_layers()).last() == a.spec_layers().last().outputs,
{
    let layers = a.spec_layers();
    assert forall|i: int| 0 <= i < layers.len() implies #[trigger] spec_neuron_widths(layers)[i]
        == layers[i].inputs by {
        if i > 0 {
            assert(layers[i - 1].outputs == layers[(i - 1) + 1].inputs);
        }
    }
}

/// A request is refused only for the three rules: with matching lengths and
/// no softmax hidden layer it is accepted unless a softmax output is paired
/// with the mean squared error; any non-softmax output is accepted with either
/// loss, and a softmax output with cross entropy. The softmax-with-MSE error
/// is reported only for that pairing.
pub proof fn lemma_architecture_rules(
    hidden_len: nat,
    acts: Seq<Activation>,
    output: Activation,
    loss: Loss,
)
    ensures
        (hidden_len == acts.len() && (forall|i: int| 0 <= i < acts.len() ==> !(#[trigger] acts[i] is Softmax))
            && !(output is Softmax && loss is Mse)) ==> spec_architecture_error(hidden_len, acts, output, loss)
            is None,
        spec_architecture_error(hidden_len, acts, output, loss) is None ==> hidden_len == acts.len()
            && (forall|i: int| 0 <= i < acts.len() ==> !(#[trigger] acts[i] is Softmax)) && !(output is Softmax
            && loss is Mse),
        spec_architecture_error(hidden_len, acts, output, loss) == Some(ArchitectureError::SoftmaxWithMse)
            ==> output is Softmax && loss is Mse,
        spec_architecture_error(hidden_len, acts, output, loss) == Some(ArchitectureError::SoftmaxInHidden)
            ==> exists|i: int| 0 <= i < acts.len() && #[trigger] acts[i] is Softmax,
        spec_architecture_error(hidden_len, acts, output, loss) == Some(
            ArchitectureError::HiddenLengthMismatch,
        ) <==> hidden_len != acts.len(),
{
}

} // verus!
