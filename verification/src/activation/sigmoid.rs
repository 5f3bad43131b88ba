//! The sigmoid activation: forward applies the logistic function cell by
//! cell; the derivative `s * (1 - s)` is cheapest from the output already
//! computed, so the layer differentiates from its output cache.

use vstd::prelude::*;

use super::{Activation, ActivationFnDerivative, ActivationLayer};
use crate::layer::Layer;

verus! {

/// A fresh sigmoid activation pass, differentiating from the output.
pub fn new() -> (r: ActivationLayer)
    ensures
        r.activation == Activation::Sigmoid,
        r.derivative == ActivationFnDerivative::FromOutput,
        r.input is None,
        r.output is None,
        r.layer_wf(),
{
    ActivationLayer::new(Activation::Sigmoid, ActivationFnDerivative::FromOutput)
}

} // verus!
