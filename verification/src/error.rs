use vstd::prelude::*;

verus! {

/// A field of the builder that [`ArenaError::ConfigError`] names.
#[derive(Clone, Copy, Debug, PartialEq, Eq, Structural)]
pub enum ConfigField {
    /// The strategy under test.
    Strategy,
    /// The price feed.
    Feed,
    /// The inspector that records results.
    Inspector,
    /// The arbitrageur.
    Arbitrageur,
    /// The pool fee.
    Fee,
    /// The pool tick spacing.
    TickSpacing,
}

/// Why an arena could not be built or a run did not complete.
#[derive(Clone, Copy, Debug, PartialEq, Eq, Structural)]
pub enum ArenaError {
    /// A required field is missing or invalid.
    ConfigError(ConfigField),
    /// The node failed to launch or to become reachable.
    NodeStartupError,
    /// A deployment call failed or a deployment transaction reverted.
    DeploymentError,
    /// A call to a collaborator failed during initialisation or a tick.
    StepExecutionError,
}

/// Failure reported by a collaborator whose call into the chain did not succeed.
#[derive(Clone, Copy, Debug, PartialEq, Eq, Structural)]
pub struct StepFailure {}

} // verus!
