use vstd::prelude::*;

verus! {

/// A stateful, unbounded price process that supplies the fair value of each tick.
pub trait Feed<V> {
    /// The value the process stands at, without advancing it. Before the
    /// first call of [`Feed::next`] this is the initial value.
    fn current_value(&self) -> V;

    /// Advances the process by one tick and returns the new value.
    fn next(&mut self) -> V;
}

} // verus!
