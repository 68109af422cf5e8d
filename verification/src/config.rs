use vstd::prelude::*;

verus! {

/// Immutable parameters of one simulation run.
#[derive(Clone, Copy, Debug)]
pub struct Config {
    /// Number of simulation ticks to run.
    pub steps: usize,
}

impl Config {
    /// A configuration that runs `steps` ticks.
    pub fn new(steps: usize) -> (config: Self)
        ensures
            config.steps == steps,
    {
        Config { steps }
    }
}

} // verus!
