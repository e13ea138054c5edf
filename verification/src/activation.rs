use vstd::prelude::*;

verus! {

/// The activation function applied after a layer's affine map.
#[derive(Clone, Copy, Debug, PartialEq, Eq, Structural)]
pub enum Activation {
    Relu,
    LeakyRelu,
    Sigmoid,
    Softmax,
    Tanh,
    Identity,
}

/// The scheme by which the initial weights of a layer are drawn: a normal
/// distribution centred at zero whose variance is `2 / fan`, where the fan is
/// the layer's input count (He) or the sum of its input and output counts (Xavier).
#[derive(Clone, Copy, Debug, PartialEq, Eq, Structural)]
pub enum WeightInit {
    He,
    Xavier,
}

/// The name of an activation as an ONNX operator type.
pub open spec fn spec_op_type(a: Activation) -> Seq<char> {
    match a {
        Activation::Relu => seq!['R', 'e', 'l', 'u'],
        Activation::LeakyRelu => seq!['L', 'e', 'a', 'k', 'y', 'R', 'e', 'l', 'u'],
        Activation::Sigmoid => seq!['S', 'i', 'g', 'm', 'o', 'i', 'd'],
        Activation::Softmax => seq!['S', 'o', 'f', 't', 'm', 'a', 'x'],
        Activation::Tanh => seq!['T', 'a', 'n', 'h'],
        Activation::Identity => seq!['I', 'd', 'e', 'n', 't', 'i', 't', 'y'],
    }
}

/// The initialisation scheme that suits an activation.
pub open spec fn spec_weight_init(a: Activation) -> WeightInit {
    match a {
        Activation::Relu | Activation::LeakyRelu => WeightInit::He,
        _ => WeightInit::Xavier,
    }
}

/// The fan by which the initial variance `2 / fan` of a layer is divided.
pub open spec fn spec_init_fan(w: WeightInit, inputs: nat, outputs: nat) -> nat {
    match w {
        WeightInit::He => inputs,
        WeightInit::Xavier => inputs + outputs,
    }
}

impl Activation {
    /// Whether the element-wise derivative of this activation, taken at its
    /// output, exists. Softmax couples a whole row, so it has none.
    pub open spec fn spec_derivative_defined(self) -> bool {
        !(self is Softmax)
    }

    pub fn derivative_defined(&self) -> (b: bool)
        ensures
            b == self.spec_derivative_defined(),
    {
        match self {
            Activation::Softmax => false,
            _ => true,
        }
    }

    /// The initialisation scheme used for the weights of a layer with this activation.
    pub fn weight_init(&self) -> (w: WeightInit)
        ensures
            w == spec_weight_init(*self),
            (*self is Relu || *self is LeakyRelu) <==> w is He,
    {
        match self {
            Activation::Relu | Activation::LeakyRelu => WeightInit::He,
            Activation::Sigmoid | Activation::Softmax | Activation::Tanh | Activation::Identity => {
                WeightInit::Xavier
            },
        }
    }

    /// The ONNX operator type that computes this activation.
    pub fn onnx_op_type(&self) -> (s: String)
        ensures
            s@ == spec_op_type(*self),
    {
        match self {
            Activation::Relu => {
                proof {
                    reveal_strlit("Relu");
                }
                String::from_str("Relu")
            },
            Activation::LeakyRelu => {
                proof {
                    reveal_strlit("LeakyRelu");
                }
                String::from_str("LeakyRelu")
            },
            Activation::Sigmoid => {
                proof {
                    reveal_strlit("Sigmoid");
                }
                String::from_str("Sigmoid")
            },
            Activation::Softmax => {
                proof {
                    reveal_strlit("Softmax");
                }
                String::from_str("Softmax")
            },
            Activation::Tanh => {
                proof {
                    reveal_strlit("Tanh");
                }
                String::from_str("Tanh")
            },
            Activation::Identity => {
                proof {
                    reveal_strlit("Identity");
                }
                String::from_str("Identity")
            },
        }
    }
}

impl WeightInit {
    /// The fan of a layer with `inputs` inputs and `outputs` outputs under this scheme;
    /// the standard deviation of the initial weights is `sqrt(2 / fan)`.
    pub fn fan(&self, inputs: usize, outputs: usize) -> (f: usize)
        requires
            inputs + outputs <= usize::MAX,
        ensures
            f == spec_init_fan(*self, inputs as nat, outputs as nat),
            *self is He ==> f == inputs,
            *self is Xavier ==> f == inputs + outputs,
    {
        match self {
            WeightInit::He => inputs,
            WeightInit::Xavier => inputs + outputs,
        }
    }
}

/// He initialisation divides by the input count of a layer alone, whatever
/// its output count; Xavier initialisation divides by the sum of both counts.
pub proof fn lemma_init_fans(inputs: nat, outputs: nat, other_outputs: nat)
    ensures
        spec_init_fan(WeightInit::He, inputs, outputs) == inputs,
        spec_init_fan(WeightInit::He, inputs, outputs) == spec_init_fan(WeightInit::He, inputs, other_outputs),
        spec_init_fan(WeightInit::Xavier, inputs, outputs) == inputs + outputs,
{
}

/// ReLU-like activations (ReLU and leaky ReLU) take He initialisation, every
/// other activation takes Xavier initialisation.
pub proof fn lemma_weight_init_choice(a: Activation)
    ensures
        spec_weight_init(a) is He <==> (a is Relu || a is LeakyRelu),
{
}

/// Distinct activations are exported as distinct ONNX operators, so the
/// activation of every layer can be told from its operator type.
pub proof fn lemma_op_types_distinct(a: Activation, b: Activation)
    ensures
        spec_op_type(a) == spec_op_type(b) ==> a == b,
{
    if spec_op_type(a) == spec_op_type(b) && a != b {
        let sa = spec_op_type(a);
        let sb = spec_op_type(b);
        if sa.len() == sb.len() {
            assert(sa[0] != sb[0] || sa[1] != sb[1]);
        }
    }
}

} // verus!
