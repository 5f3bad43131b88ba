//! The closed set of optimizers a learnable tensor can own, dispatched by
//! tag.

pub mod adam;

use vstd::prelude::*;

use crate::error::NnError;
use crate::matrix::Matrix;
use self::adam::{update_post, AdamOptimizer};

verus! {

/// The optimizers a layer can pair with a parameter tensor.
pub enum Optimizers {
    AdamOptimizer(AdamOptimizer),
}

impl Optimizers {
    /// The wrapped Adam state.
    pub open spec fn inner(&self) -> AdamOptimizer {
        match *self {
            Optimizers::AdamOptimizer(a) => a,
        }
    }

    /// The wrapped optimizer's own invariant.
    pub open spec fn wf(&self) -> bool {
        self.inner().moments_wf()
    }

    /// Whether any recorded moment already has the given shape, so that a
    /// gradient of that shape will be accepted.
    pub fn moments_fit(&self, nrows: usize, ncols: usize) -> (r: bool)
        ensures
            r == (self.inner().m is Some ==> self.inner().m.unwrap().rows == nrows
                && self.inner().m.unwrap().cols == ncols),
    {
        match self {
            Optimizers::AdamOptimizer(a) => match &a.m {
                Some(m) => m.rows == nrows && m.cols == ncols,
                None => true,
            },
        }
    }

    /// One optimizer step on one parameter tensor; dispatches to the
    /// wrapped optimizer's cell-at-a-time update.
    pub fn update(&mut self, parameters: &Matrix, parameters_gradient: &Matrix, epoch: usize) -> (r: Result<
        Matrix,
        NnError,
    >)
        requires
            old(self).wf(),
            parameters.wf(),
            parameters_gradient.wf(),
            old(self).inner().t < usize::MAX,
        ensures
            update_post(
                old(self).inner(),
                final(self).inner(),
                *parameters,
                *parameters_gradient,
                epoch,
                r,
            ),
            final(self).wf(),
    {
        match self {
            Optimizers::AdamOptimizer(adam) => adam.update(parameters, parameters_gradient, epoch),
        }
    }
}

} // verus!
