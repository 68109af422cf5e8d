use crate::error::StepFailure;
use vstd::prelude::*;

verus! {

/// Where and how an inspector persists what it has recorded. The engine hands
/// the selector through; only the inspector interprets it.
#[derive(Clone, Debug, PartialEq, Eq)]
pub struct SaveData {
    /// The destination, in the inspector's own notation.
    pub target: String,
}

/// Records the value of each tick and persists the record on request.
pub trait Inspector<V> {
    /// Reads back the value logged at `step`, if any.
    fn inspect(&self, step: usize) -> Option<V>;

    /// Appends a value to the record.
    fn log(&mut self, value: V) -> Result<(), StepFailure>;

    /// Persists the record to the destination that `save_type` selects.
    fn save(&self, save_type: Option<SaveData>);
}

} // verus!
