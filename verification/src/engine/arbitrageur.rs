use crate::error::StepFailure;
use crate::Signal;
use vstd::prelude::*;

verus! {

/// An agent that trades against the pool to move its price toward the
/// signal's value.
pub trait Arbitrageur<P, V> {
    /// Submits the corrective trades for one tick.
    fn arbitrage(&self, signal: &Signal<V>, provider: P) -> Result<(), StepFailure>;
}

} // verus!
