//! The learning-rate-schedule collaborator: a map from the epoch to the
//! rate the optimizer applies. The only built-in variant is constant.

use vstd::prelude::*;

verus! {

/// The bit pattern of the double `0.001`, the default constant rate.
pub const DEFAULT_RATE_BITS: u64 = 0x3F50_624D_D2F1_A9FC;

/// A rule yielding the learning rate for a given epoch.
#[derive(Clone, Copy, Debug, PartialEq, Eq, Structural)]
pub enum LearningRateSchedule {
    /// The same rate at every epoch.
    Constant(u64),
}

/// The schedule a layer falls back on: a constant rate of `0.001`.
pub fn default_learning_rate() -> (r: LearningRateSchedule)
    ensures
        r == LearningRateSchedule::Constant(DEFAULT_RATE_BITS),
{
    LearningRateSchedule::Constant(DEFAULT_RATE_BITS)
}

impl LearningRateSchedule {
    /// The rate the schedule yields at the given epoch.
    pub open spec fn spec_rate(&self, epoch: usize) -> u64 {
        match *self {
            LearningRateSchedule::Constant(c) => c,
        }
    }

    /// Returns the rate for the given epoch.
    pub fn get_learning_rate(&self, epoch: usize) -> (r: u64)
        ensures
            r == self.spec_rate(epoch),
    {
        match self {
            LearningRateSchedule::Constant(c) => *c,
        }
    }
}

} // verus!
