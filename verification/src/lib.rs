//! Orchestration engine for backtesting automated-market-maker strategies
//! against a disposable local chain.
//!
//! The engine decides; it performs no input or output of its own. A driver
//! starts the node, deploys contracts and tears the node down, and reports
//! each outcome back to the [`arena::Arena`], which answers with the next
//! thing to do.

/// Defines the main simulation runtime.
pub mod arena;

/// Typed calls of the contracts that the engine queries.
pub mod bindings;

/// Contains configuration types for the simulation.
pub mod config;

/// Error taxonomy of the engine.
pub mod error;

/// Contains the interface of price processes.
pub mod feed;

/// Defines the base strategy trait.
pub mod strategy;

/// The run state machine and the collaborators it sequences.
pub mod engine;

use alloy::primitives::Address;
use vstd::prelude::*;

verus! {

/// `alloy::primitives::Address`, a 20-byte account address. The engine only
/// carries addresses from the deployment to the signals and never looks inside.
#[verifier::external_type_specification]
#[verifier::external_body]
pub struct ExAddress(Address);

/// Identity of the pool under test.
#[derive(Clone, Copy, Debug, PartialEq, Eq)]
pub struct PoolKey {
    /// The lower token of the pair.
    pub currency0: Address,
    /// The higher token of the pair.
    pub currency1: Address,
    /// Fee tier of the pool.
    pub fee: u32,
    /// Tick spacing of the pool.
    pub tick_spacing: i32,
    /// Address of the hook contract attached to the pool.
    pub hooks: Address,
}

/// A signal that is passed to a [`strategy::Strategy`] to provide information
/// about the current state of the pool.
#[derive(Debug, PartialEq)]
pub struct Signal<V> {
    /// Address of the pool manager.
    pub manager: Address,
    /// Key of the pool.
    pub pool: PoolKey,
    /// Current theoretical value of the pool.
    pub current_value: V,
    /// Current step of the simulation; absent only before stepping begins.
    pub step: Option<usize>,
}

impl<V: Copy> Copy for Signal<V> {

}

impl<V: Copy> Clone for Signal<V> {
    fn clone(&self) -> (copy: Self)
        ensures
            copy == *self,
    {
        *self
    }
}

impl<V> Signal<V> {
    /// Public constructor function for a new [`Signal`].
    pub fn new(manager: Address, pool: PoolKey, current_value: V, step: Option<usize>) -> (signal:
        Self)
        ensures
            signal == (Signal { manager, pool, current_value, step }),
    {
        Self { manager, pool, current_value, step }
    }
}

} // verus!
