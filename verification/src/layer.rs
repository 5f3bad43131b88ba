//! The layer abstraction: a forward pass that caches what the matching
//! backward pass will need, and a backward pass that consumes the upstream
//! gradient and yields the gradient for the layer below. Each implementor
//! states its exact behaviour through the trait's spec functions.

pub mod dense_layer;
pub mod full_layer;

use vstd::prelude::*;

use crate::activation::Activation;
use crate::error::NnError;
use crate::matrix::Matrix;

verus! {

/// The kinds of layer a network can stack.
#[derive(Clone, Copy, Debug, PartialEq, Eq, Structural)]
pub enum Layers {
    /// A dense affine transform.
    Dense,
    /// An activation pass alone.
    Activation(Activation),
}

/// A layer: forwarding produces the output and caches state, backward
/// propagation consumes the upstream gradient. Each implementor defines the
/// spec functions, so a caller that knows the concrete type knows the exact
/// relation each pass establishes.
pub trait Layer: Sized {
    /// The implementor's own invariant, kept across both passes.
    spec fn layer_wf(&self) -> bool;

    /// What must additionally hold before a backward pass, beyond the
    /// invariant; implementors use it for machine limits such as step
    /// counters that must still have room to advance.
    spec fn backward_req(&self, epoch: usize) -> bool;

    /// The exact relation a forward pass establishes.
    spec fn forward_post(pre: Self, post: Self, input: Matrix, r: Result<Matrix, NnError>) -> bool;

    /// The exact relation a backward pass establishes.
    spec fn backward_post(pre: Self, post: Self, epoch: usize, g: Matrix, r: Result<Matrix, NnError>) -> bool;

    /// Runs the layer on `input`, caching whatever backward will need.
    fn forward(&mut self, input: Matrix) -> (r: Result<Matrix, NnError>)
        requires
            old(self).layer_wf(),
            input.wf(),
        ensures
            final(self).layer_wf(),
            Self::forward_post(*old(self), *final(self), input, r),
    ;

    /// Consumes the upstream gradient and returns the gradient for the
    /// layer below, updating any learnable state.
    fn backward(&mut self, epoch: usize, output_gradient: Matrix) -> (r: Result<Matrix, NnError>)
        requires
            old(self).layer_wf(),
            output_gradient.wf(),
            old(self).backward_req(epoch),
        ensures
            final(self).layer_wf(),
            Self::backward_post(*old(self), *final(self), epoch, output_gradient, r),
    ;
}

/// A layer whose dropout behaviour can be switched for inference.
pub trait DropoutLayer {
    /// Turns dropout masking on.
    fn enable_dropout(&mut self);

    /// Turns dropout masking off.
    fn disable_dropout(&mut self);
}

/// A layer exposing its learnable parameters as an ordered sequence of flat
/// columns: the weight columns first, then the bias column.
pub trait LearnableLayer: Sized {
    /// The implementor's own invariant.
    spec fn ll_wf(&self) -> bool;

    /// The parameter columns the layer exposes.
    spec fn params_view(&self) -> Seq<Seq<u64>>;

    /// The parameter stacks the layer accepts back.
    spec fn accepts_params(&self, params: Seq<Seq<u64>>) -> bool;

    /// The exact relation restoring parameters establishes.
    spec fn after_set(pre: Self, post: Self, params: Seq<Seq<u64>>) -> bool;

    /// Returns the weight columns followed by the bias column.
    fn get_learnable_parameters(&self) -> (r: Vec<Vec<u64>>)
        requires
            self.ll_wf(),
        ensures
            r@.len() == self.params_view().len(),
            forall|i: int| 0 <= i < r@.len() ==> #[trigger] r@[i]@ == self.params_view()[i],
    ;

    /// Replaces the layer's parameters with the given columns.
    fn set_learnable_parameters(&mut self, params_matrix: &Vec<Vec<u64>>)
        requires
            old(self).ll_wf(),
            old(self).accepts_params(vecs_view(*params_matrix)),
        ensures
            final(self).ll_wf(),
            Self::after_set(*old(self), *final(self), vecs_view(*params_matrix)),
    ;
}

/// The nested view of a vector of vectors.
pub open spec fn vecs_view(v: Vec<Vec<u64>>) -> Seq<Seq<u64>> {
    Seq::new(v@.len(), |i: int| v@[i]@)
}

} // verus!
