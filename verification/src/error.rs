use vstd::prelude::*;

verus! {

/// The failure taxonomy shared by the matrix algebra, the layers and the
/// optimizer. Every operation either returns a fully formed matrix or one
/// of these; nothing is retried internally.
#[derive(Clone, Copy, Debug, PartialEq, Eq, Structural)]
pub enum NnError {
    /// Element-wise or matrix-product operands with incompatible dimensions.
    ShapeMismatch,
    /// `backward` ran before a `forward` populated the cache, or an optimizer
    /// saw a gradient whose shape disagrees with its recorded moment state.
    UninitializedState,
    /// A configuration value rejected at construction time, such as a dropout
    /// rate outside `[0, 1]` or distribution bounds the sampler refuses.
    InvalidConfiguration,
}

} // verus!
