//! The linear (identity) activation: forward returns its input and the
//! derivative is one everywhere, so backward passes the gradient through.

use vstd::prelude::*;

use super::{Activation, ActivationFnDerivative, ActivationLayer};
use crate::layer::Layer;

verus! {

/// A fresh linear activation pass, differentiating from the input.
pub fn new() -> (r: ActivationLayer)
    ensures
        r.activation == Activation::Linear,
        r.derivative == ActivationFnDerivative::FromInput,
        r.input is None,
        r.output is None,
        r.layer_wf(),
{
    ActivationLayer::new(Activation::Linear, ActivationFnDerivative::FromInput)
}

} // verus!
