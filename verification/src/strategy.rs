use crate::error::StepFailure;
use crate::Signal;
use vstd::prelude::*;

verus! {

/// Represents a strategy that can be run in an arena. `P` is the handle
/// through which the strategy reaches the chain, `V` the value type of the feed.
pub trait Strategy<P, V> {
    /// Initialization function for the strategy to be run upon simulation startup.
    fn init(&self, provider: P, signal: Signal<V>) -> Result<(), StepFailure>;

    /// Processing function for the strategy to be run each simulation step.
    fn process(&self, provider: P, signal: Signal<V>) -> Result<(), StepFailure>;
}

} // verus!
