//! Activation strategies: a pure forward transform paired with one of two
//! derivative modes, combined with the upstream gradient as a cell-by-cell
//! product during the backward pass.

pub mod linear;
pub mod sigmoid;

use vstd::prelude::*;

use crate::error::NnError;
use crate::layer::Layer;
use crate::matrix::{canon, ew2_grid, un_grid, EwOp, Matrix, UnOp};
use crate::scalar::{mul_bits, norm_bits};

verus! {

broadcast use crate::scalar::lemma_norm_bits_idempotent;

/// Where a variant's derivative is computed from during backward.
#[derive(Clone, Copy, Debug, PartialEq, Eq, Structural)]
pub enum ActivationFnDerivative {
    /// The derivative is evaluated on the cached pre-activation input.
    FromInput,
    /// The derivative is evaluated on the cached post-activation output.
    FromOutput,
}

/// The closed set of activation variants.
#[derive(Clone, Copy, Debug, PartialEq, Eq, Structural)]
pub enum Activation {
    /// The identity transform; its derivative is one everywhere.
    Linear,
    /// The elementwise logistic transform.
    Sigmoid,
}

/// What an activation's forward pass yields on a grid: the linear variant
/// returns its input bit for bit; the sigmoid variant's output is pinned
/// up to NaN normalization, like every computed grid.
pub open spec fn act_rel(a: Activation, x: Seq<Seq<u64>>, out: Seq<Seq<u64>>) -> bool {
    match a {
        Activation::Linear => out == x,
        Activation::Sigmoid => canon(out) == un_grid(UnOp::Sigmoid, x),
    }
}

/// An activation pass: the variant, its derivative mode, and the caches the
/// backward pass reads. Each forward overwrites both caches.
pub struct ActivationLayer {
    /// The variant applied cell by cell.
    pub activation: Activation,
    /// Which cache the derivative is computed from.
    pub derivative: ActivationFnDerivative,
    /// The last forward input.
    pub input: Option<Matrix>,
    /// The last forward output.
    pub output: Option<Matrix>,
}

impl ActivationLayer {
    /// A fresh layer with empty caches.
    pub fn new(activation: Activation, derivative: ActivationFnDerivative) -> (r: ActivationLayer)
        ensures
            r.activation == activation,
            r.derivative == derivative,
            r.input is None,
            r.output is None,
            r.layer_wf(),
    {
        ActivationLayer { activation, derivative, input: None, output: None }
    }

    /// The cache the configured derivative mode reads.
    pub open spec fn cache(&self) -> Option<Matrix> {
        match self.derivative {
            ActivationFnDerivative::FromInput => self.input,
            ActivationFnDerivative::FromOutput => self.output,
        }
    }

    /// The normalized grid the backward pass yields on a gradient: for the
    /// linear variant the derivative is one everywhere and the product
    /// collapses to the gradient itself; for the sigmoid variant it is the
    /// gradient times the derivative grid of the mode's cache.
    pub open spec fn abwd_grid(&self, g: Seq<Seq<u64>>) -> Seq<Seq<u64>> {
        match self.activation {
            Activation::Linear => canon(g),
            Activation::Sigmoid => match self.derivative {
                ActivationFnDerivative::FromInput => ew2_grid(
                    EwOp::Mul,
                    g,
                    un_grid(UnOp::SigmoidDerivative, self.input.unwrap()@),
                ),
                ActivationFnDerivative::FromOutput => ew2_grid(
                    EwOp::Mul,
                    g,
                    un_grid(UnOp::SigmoidDerivativeFromOutput, self.output.unwrap()@),
                ),
            },
        }
    }

    /// A backward pass is owed success exactly when the mode's cache is
    /// populated and the upstream gradient has its shape.
    pub open spec fn backward_accepts(&self, grows: nat, gcols: nat) -> bool {
        self.cache() is Some && self.cache().unwrap().rows == grows && self.cache().unwrap().cols
            == gcols
    }
}

impl Layer for ActivationLayer {
    /// Whatever is cached is a well-formed matrix.
    open spec fn layer_wf(&self) -> bool {
        (self.input is Some ==> self.input.unwrap().wf()) && (self.output is Some
            ==> self.output.unwrap().wf())
    }

    /// An activation pass has no counters to exhaust.
    open spec fn backward_req(&self, epoch: usize) -> bool {
        true
    }

    /// Forward always succeeds: it caches the input, caches the transformed
    /// output, and returns the output; the configuration is untouched.
    open spec fn forward_post(pre: Self, post: Self, input: Matrix, r: Result<Matrix, NnError>) -> bool {
        post.activation == pre.activation && post.derivative == pre.derivative && post.input
            is Some && post.input.unwrap()@ == input@ && post.input.unwrap().rows == input.rows
            && post.input.unwrap().cols == input.cols && post.output is Some && match r {
            Ok(out) => out.wf() && out.rows == input.rows && out.cols == input.cols && act_rel(
                pre.activation,
                input@,
                out@,
            ) && post.output.unwrap()@ == out@ && post.output.unwrap().rows == out.rows
                && post.output.unwrap().cols == out.cols,
            Err(_) => false,
        }
    }

    /// Backward leaves the layer untouched and yields the gradient times
    /// the locally computed derivative (bit for bit for the linear
    /// variant); it fails with `UninitializedState` when no forward has
    /// populated the mode's cache, and with `ShapeMismatch` when the
    /// gradient's shape disagrees with it.
    open spec fn backward_post(pre: Self, post: Self, epoch: usize, g: Matrix, r: Result<Matrix, NnError>) -> bool {
        post == pre && match r {
            Ok(out) => pre.backward_accepts(g.rows as nat, g.cols as nat) && out.wf() && out.rows
                == g.rows && out.cols == g.cols && canon(out@) == pre.abwd_grid(g@) && (
            pre.activation == Activation::Linear ==> out@ == g@),
            Err(e) => !pre.backward_accepts(g.rows as nat, g.cols as nat) && (e
                == NnError::UninitializedState <==> pre.cache() is None) && (e
                == NnError::ShapeMismatch <==> pre.cache() is Some),
        }
    }

    fn forward(&mut self, input: Matrix) -> (r: Result<Matrix, NnError>) {
        let output = match self.activation {
            Activation::Linear => input.clone(),
            Activation::Sigmoid => input.sigmoid(),
        };
        self.input = Some(input);
        self.output = Some(output.clone());
        Ok(output)
    }

    fn backward(&mut self, epoch: usize, output_gradient: Matrix) -> (r: Result<Matrix, NnError>) {
        let cached = match self.derivative {
            ActivationFnDerivative::FromInput => &self.input,
            ActivationFnDerivative::FromOutput => &self.output,
        };
        let cached = match cached {
            Some(c) => c,
            None => {
                return Err(NnError::UninitializedState);
            },
        };
        if cached.rows != output_gradient.rows || cached.cols != output_gradient.cols {
            return Err(NnError::ShapeMismatch);
        }
        match self.activation {
            Activation::Linear => Ok(output_gradient),
            Activation::Sigmoid => {
                let deriv = match self.derivative {
                    ActivationFnDerivative::FromInput => cached.sigmoid_derivative(),
                    ActivationFnDerivative::FromOutput => cached.sigmoid_derivative_from_output(),
                };
                let ghost dgrid = match self.derivative {
                    ActivationFnDerivative::FromInput => un_grid(
                        UnOp::SigmoidDerivative,
                        self.input.unwrap()@,
                    ),
                    ActivationFnDerivative::FromOutput => un_grid(
                        UnOp::SigmoidDerivativeFromOutput,
                        self.output.unwrap()@,
                    ),
                };
                match output_gradient.component_mul(&deriv) {
                    Ok(out) => {
                        proof {
                            assert forall|ii: int, jj: int|
                                0 <= ii < output_gradient@.len() && 0 <= jj
                                    < output_gradient@[ii].len() implies mul_bits(
                                output_gradient@[ii][jj],
                                deriv@[ii][jj],
                            ) == mul_bits(output_gradient@[ii][jj], dgrid[ii][jj]) by {
                                assert(canon(deriv@)[ii][jj] == norm_bits(deriv@[ii][jj]));
                            }
                            assert(ew2_grid(EwOp::Mul, output_gradient@, deriv@) =~~= ew2_grid(
                                EwOp::Mul,
                                output_gradient@,
                                dgrid,
                            ));
                        }
                        Ok(out)
                    },
                    Err(_) => Err(NnError::ShapeMismatch),
                }
            },
        }
    }
}

/// The linear activation is an identity pass-through: its forward relation
/// holds exactly of the input grid itself, and its backward relation
/// exactly of the upstream gradient itself, for every grid.
pub proof fn lemma_linear_pass_through(l: ActivationLayer, x: Seq<Seq<u64>>, g: Seq<Seq<u64>>)
    requires
        l.activation == Activation::Linear,
    ensures
        forall|out: Seq<Seq<u64>>| #[trigger] act_rel(l.activation, x, out) <==> out == x,
        l.abwd_grid(g) == canon(g),
{
}

/// Forward enables backward: a successful forward pass fills both caches,
/// so a backward pass with a gradient shaped like the forward output is
/// owed success in either derivative mode.
pub proof fn lemma_forward_enables_backward(pre: ActivationLayer, post: ActivationLayer, input: Matrix, out: Matrix)
    requires
        ActivationLayer::forward_post(pre, post, input, Ok(out)),
    ensures
        post.backward_accepts(out.rows as nat, out.cols as nat),
{
}

impl Activation {
    /// The layer running this variant, in the derivative mode natural to
    /// it: linear differentiates from the input, sigmoid from the output
    /// it already computed.
    pub fn to_layer(&self) -> (r: ActivationLayer)
        ensures
            r.activation == *self,
            r.derivative == (match *self {
                Activation::Linear => ActivationFnDerivative::FromInput,
                Activation::Sigmoid => ActivationFnDerivative::FromOutput,
            }),
            r.input is None,
            r.output is None,
            r.layer_wf(),
    {
        match self {
            Self::Linear => linear::new(),
            Self::Sigmoid => sigmoid::new(),
        }
    }
}

} // verus!
