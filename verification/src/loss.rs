use vstd::prelude::*;

use crate::activation::Activation;

verus! {

/// The loss function a network is trained against.
#[derive(Clone, Copy, Debug, PartialEq, Eq, Structural)]
pub enum Loss {
    CrossEntropy,
    Mse,
}

/// How the error signal of the output layer is computed from the outputs `y`
/// and the targets `t`.
#[derive(Clone, Copy, Debug, PartialEq, Eq, Structural)]
pub enum DeltaRule {
    /// `y - t`: cross entropy over a softmax output, where the softmax
    /// Jacobian cancels against the loss gradient.
    OutputMinusTarget,
    /// `-t / (y + eps)`, times the derivative of the output activation.
    CrossEntropyChain,
    /// `y - t`, times the derivative of the output activation.
    MseChain,
}

/// The output error rule for a loss paired with an output activation.
pub open spec fn spec_delta_rule(loss: Loss, output: Activation) -> DeltaRule {
    match (loss, output) {
        (Loss::CrossEntropy, Activation::Softmax) => DeltaRule::OutputMinusTarget,
        (Loss::CrossEntropy, _) => DeltaRule::CrossEntropyChain,
        (Loss::Mse, _) => DeltaRule::MseChain,
    }
}

/// Whether a rule multiplies by the derivative of the output activation.
pub open spec fn spec_uses_output_derivative(rule: DeltaRule) -> bool {
    !(rule is OutputMinusTarget)
}

/// The number by which the summed loss of a batch is divided: cross entropy
/// is reported as a sum, the mean squared error as a mean over every entry.
pub open spec fn spec_loss_divisor(loss: Loss, batch_size: nat, target_dim: nat) -> nat {
    match loss {
        Loss::CrossEntropy => 1,
        Loss::Mse => batch_size * target_dim,
    }
}

impl Loss {
    /// The rule by which the output error is computed for this loss and the
    /// given activation of the output layer.
    pub fn delta_rule(&self, output: Activation) -> (r: DeltaRule)
        ensures
            r == spec_delta_rule(*self, output),
            *self is Mse ==> r is MseChain,
            r is OutputMinusTarget <==> (*self is CrossEntropy && output is Softmax),
    {
        match self {
            Loss::CrossEntropy => match output {
                Activation::Softmax => DeltaRule::OutputMinusTarget,
                _ => DeltaRule::CrossEntropyChain,
            },
            Loss::Mse => DeltaRule::MseChain,
        }
    }

    /// The divisor applied to the summed loss of a batch of `batch_size` rows
    /// of `target_dim` targets.
    pub fn loss_divisor(&self, batch_size: usize, target_dim: usize) -> (d: usize)
        requires
            batch_size * target_dim <= usize::MAX,
        ensures
            d == spec_loss_divisor(*self, batch_size as nat, target_dim as nat),
            *self is Mse ==> d == batch_size * target_dim,
            *self is CrossEntropy ==> d == 1,
    {
        match self {
            Loss::CrossEntropy => 1,
            Loss::Mse => batch_size * target_dim,
        }
    }
}

impl DeltaRule {
    /// Whether this rule needs the derivative of the output activation.
    pub fn uses_output_derivative(&self) -> (b: bool)
        ensures
            b == spec_uses_output_derivative(*self),
    {
        match self {
            DeltaRule::OutputMinusTarget => false,
            _ => true,
        }
    }
}

/// The mean squared error always chains through the derivative of the output
/// activation, whatever that activation is; the derivative is skipped only
/// for cross entropy over a softmax output, and cross entropy over any other
/// output chains through it too.
pub proof fn lemma_delta_rules(a: Activation)
    ensures
        spec_delta_rule(Loss::Mse, a) == DeltaRule::MseChain,
        spec_uses_output_derivative(spec_delta_rule(Loss::Mse, a)),
        !(a is Softmax) ==> spec_delta_rule(Loss::CrossEntropy, a) == DeltaRule::CrossEntropyChain,
        forall|l: Loss|
            (#[trigger] spec_delta_rule(l, a)) is OutputMinusTarget <==> (l is CrossEntropy && a is Softmax),
{
}

/// The mean squared error of a batch is averaged over every entry, one per
/// target of each row; cross entropy is reported as a sum.
pub proof fn lemma_loss_divisors(batch_size: nat, target_dim: nat)
    ensures
        spec_loss_divisor(Loss::Mse, batch_size, target_dim) == batch_size * target_dim,
        spec_loss_divisor(Loss::CrossEntropy, batch_size, target_dim) == 1,
{
}

} // verus!
