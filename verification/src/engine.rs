/// The arbitrageur interface.
pub mod arbitrageur;

/// The inspector interface and its persistence selector.
pub mod inspector;

/// The transition function of a run.
pub mod machine;

/// Whole runs: the actions a run asks for, and what holds of them.
pub mod trace;
