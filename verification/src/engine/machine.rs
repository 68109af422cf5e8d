use crate::engine::inspector::SaveData;
use crate::error::{ArenaError, ConfigField};
use crate::{PoolKey, Signal};
use alloy::primitives::Address;
use vstd::prelude::*;

verus! {

/// What a successful deployment leaves on the chain: the pool manager and the
/// pool it holds. Fixed for the rest of the run.
#[derive(Clone, Copy, Debug, PartialEq, Eq)]
pub struct Deployment {
    /// Address of the pool manager.
    pub manager: Address,
    /// Key of the deployed pool.
    pub pool: PoolKey,
}

/// Where a deployment put the contracts of the pool.
#[derive(Clone, Copy, Debug, PartialEq, Eq)]
pub struct Addresses {
    /// The pool manager.
    pub manager: Address,
    /// The lower token of the pair.
    pub currency0: Address,
    /// The higher token of the pair.
    pub currency1: Address,
    /// The hook contract of the pool.
    pub hooks: Address,
}

impl Addresses {
    /// The deployment of a pool with the given parameters at these addresses.
    pub open spec fn site(self, fee: u32, tick_spacing: i32) -> Deployment {
        Deployment {
            manager: self.manager,
            pool: PoolKey {
                currency0: self.currency0,
                currency1: self.currency1,
                fee,
                tick_spacing,
                hooks: self.hooks,
            },
        }
    }
}

/// The next thing the driver has to do for the run.
#[derive(Debug, PartialEq)]
pub enum Action<V> {
    /// Nothing: no run is under way.
    Idle,
    /// Start the node and connect to it.
    StartNode,
    /// Ask the chain for the maximum protocol fee.
    QueryFeeLimit,
    /// Deploy the pool manager, the tokens and the pool with these parameters.
    Deploy { fee: u32, tick_spacing: i32 },
    /// Read the feed's present value without advancing it.
    ReadFeed,
    /// Call the strategy's `init` with this signal.
    Init(Signal<V>),
    /// Advance the feed by one tick.
    AdvanceFeed,
    /// Call the strategy's `process` with this signal.
    Process(Signal<V>),
    /// Call the arbitrageur with this signal.
    Arbitrage(Signal<V>),
    /// Log this value with the inspector.
    Log(V),
    /// Have the inspector persist its record.
    Save(Option<SaveData>),
    /// Tear the node down.
    Teardown,
    /// The run is over, with this result.
    Finish(Result<(), ArenaError>),
}

/// What came of the last action.
#[derive(Debug, PartialEq)]
pub enum Event<V> {
    /// The action succeeded and has nothing to report.
    Done,
    /// The chain's maximum protocol fee.
    FeeLimit(u16),
    /// The contracts are deployed at these addresses.
    Deployed(Addresses),
    /// The feed's value.
    Value(V),
    /// The action failed.
    Failed,
}

/// Where a run stands: which outcome it is waiting for.
#[derive(Debug, PartialEq)]
pub enum Stage<V> {
    /// Assembled; no run has begun.
    Built,
    /// Waiting for the node to start.
    StartingNode,
    /// Waiting for the chain's maximum protocol fee.
    QueryingFeeLimit,
    /// Waiting for the deployment.
    Deploying,
    /// Waiting for the feed's initial value.
    ReadingFeed { site: Deployment },
    /// Waiting for the strategy's `init`.
    Initializing { site: Deployment },
    /// Waiting for the feed's value of tick `tick`.
    Advancing { site: Deployment, tick: usize },
    /// Waiting for the strategy's `process` of tick `tick`.
    Processing { site: Deployment, tick: usize, value: V },
    /// Waiting for the arbitrageur in tick `tick`.
    Arbitraging { site: Deployment, tick: usize, value: V },
    /// Waiting for the inspector's `log` of tick `tick`.
    Logging { site: Deployment, tick: usize },
    /// Waiting for the inspector's `save`.
    Saving,
    /// Waiting for the node to be torn down; `outcome` is what the run will report.
    TearingDown { outcome: Result<(), ArenaError> },
    /// The run succeeded.
    Completed,
    /// The run failed.
    Failed { error: ArenaError },
}

impl<V: Copy> Copy for Event<V> {

}

impl<V: Copy> Clone for Event<V> {
    fn clone(&self) -> (copy: Self)
        ensures
            copy == *self,
    {
        *self
    }
}

impl<V: Copy> Copy for Stage<V> {

}

impl<V: Copy> Clone for Stage<V> {
    fn clone(&self) -> (copy: Self)
        ensures
            copy == *self,
    {
        *self
    }
}

/// The four states a caller distinguishes.
#[derive(Clone, Copy, Debug, PartialEq, Eq, Structural)]
pub enum Phase {
    /// Assembled; no run has begun.
    Built,
    /// A run is under way.
    Running,
    /// The run succeeded.
    Completed,
    /// The run failed.
    Failed,
}

impl<V> Stage<V> {
    /// The caller-visible state that this stage belongs to.
    pub open spec fn phase(self) -> Phase {
        match self {
            Stage::Built => Phase::Built,
            Stage::Completed => Phase::Completed,
            Stage::Failed { .. } => Phase::Failed,
            _ => Phase::Running,
        }
    }
}

/// The state of an arena's run: the pool parameters, the parameters of the
/// run under way, and the stage it has reached.
#[derive(Debug, PartialEq)]
pub struct Machine<V> {
    /// Fee of the pool to deploy.
    pub fee: u32,
    /// Tick spacing of the pool to deploy.
    pub tick_spacing: i32,
    /// Number of ticks of the run.
    pub steps: usize,
    /// What the inspector is told when asked to save.
    pub save: Option<SaveData>,
    /// Where the run stands.
    pub stage: Stage<V>,
}

impl<V> Machine<V> {
    /// The state of a freshly built arena.
    pub open spec fn built(fee: u32, tick_spacing: i32) -> Self {
        Machine { fee, tick_spacing, steps: 0, save: None, stage: Stage::Built }
    }

    /// The state with its stage replaced.
    pub open spec fn at(self, stage: Stage<V>) -> Self {
        Machine { stage, ..self }
    }

    /// A run of `steps` ticks begins: a built machine asks for the node; any
    /// other machine stays as it is.
    pub open spec fn begin(self, steps: usize, save: Option<SaveData>) -> (Self, Action<V>) {
        if self.stage is Built {
            (Machine { steps, save, stage: Stage::StartingNode, ..self }, Action::StartNode)
        } else {
            (self, Action::Idle)
        }
    }

    /// The run gives up with `error`: the node is torn down first.
    pub open spec fn abort(self, error: ArenaError) -> (Self, Action<V>) {
        (self.at(Stage::TearingDown { outcome: Err(error) }), Action::Teardown)
    }

    /// The ticks from `tick` on: the feed is advanced if `tick` is one of the
    /// run's ticks, and the inspector saves otherwise.
    pub open spec fn enter_tick(self, site: Deployment, tick: int) -> (Self, Action<V>) {
        if tick < self.steps {
            (self.at(Stage::Advancing { site, tick: tick as usize }), Action::AdvanceFeed)
        } else {
            (Machine { save: None, stage: Stage::Saving, ..self }, Action::Save(self.save))
        }
    }

    /// The transition function: the state and the action that follow when
    /// `event` is reported in this state. A report that does not fit the
    /// stage counts as a failure of the action that was under way.
    pub open spec fn next(self, event: Event<V>) -> (Self, Action<V>) {
        match self.stage {
            Stage::Built => (self, Action::Idle),
            Stage::StartingNode => match event {
                Event::Done => (self.at(Stage::QueryingFeeLimit), Action::QueryFeeLimit),
                _ => (
                    self.at(Stage::Failed { error: ArenaError::NodeStartupError }),
                    Action::Finish(Err(ArenaError::NodeStartupError)),
                ),
            },
            Stage::QueryingFeeLimit => match event {
                Event::FeeLimit(limit) => if self.fee <= limit {
                    (
                        self.at(Stage::Deploying),
                        Action::Deploy { fee: self.fee, tick_spacing: self.tick_spacing },
                    )
                } else {
                    self.abort(ArenaError::ConfigError(ConfigField::Fee))
                },
                _ => self.abort(ArenaError::DeploymentError),
            },
            Stage::Deploying => match event {
                Event::Deployed(addresses) => (
                    self.at(
                        Stage::ReadingFeed { site: addresses.site(self.fee, self.tick_spacing) },
                    ),
                    Action::ReadFeed,
                ),
                _ => self.abort(ArenaError::DeploymentError),
            },
            Stage::ReadingFeed { site } => match event {
                Event::Value(value) => (
                    self.at(Stage::Initializing { site }),
                    Action::Init(
                        Signal {
                            manager: site.manager,
                            pool: site.pool,
                            current_value: value,
                            step: None,
                        },
                    ),
                ),
                _ => self.abort(ArenaError::StepExecutionError),
            },
            Stage::Initializing { site } => match event {
                Event::Done => self.enter_tick(site, 0),
                _ => self.abort(ArenaError::StepExecutionError),
            },
            Stage::Advancing { site, tick } => match event {
                Event::Value(value) => (
                    self.at(Stage::Processing { site, tick, value }),
                    Action::Process(
                        Signal {
                            manager: site.manager,
                            pool: site.pool,
                            current_value: value,
                            step: Some(tick),
                        },
                    ),
                ),
                _ => self.abort(ArenaError::StepExecutionError),
            },
            Stage::Processing { site, tick, value } => match event {
                Event::Done => (
                    self.at(Stage::Arbitraging { site, tick, value }),
                    Action::Arbitrage(
                        Signal {
                            manager: site.manager,
                            pool: site.pool,
                            current_value: value,
                            step: Some(tick),
                        },
                    ),
                ),
                _ => self.abort(ArenaError::StepExecutionError),
            },
            Stage::Arbitraging { site, tick, value } => match event {
                Event::Done => (self.at(Stage::Logging { site, tick }), Action::Log(value)),
                _ => self.abort(ArenaError::StepExecutionError),
            },
            Stage::Logging { site, tick } => match event {
                Event::Done => self.enter_tick(site, tick + 1),
                _ => self.abort(ArenaError::StepExecutionError),
            },
            Stage::Saving => (self.at(Stage::TearingDown { outcome: Ok(()) }), Action::Teardown),
            Stage::TearingDown { outcome } => match outcome {
                Ok(_) => (self.at(Stage::Completed), Action::Finish(Ok(()))),
                Err(error) => (self.at(Stage::Failed { error }), Action::Finish(Err(error))),
            },
            Stage::Completed => (self, Action::Finish(Ok(()))),
            Stage::Failed { error } => (self, Action::Finish(Err(error))),
        }
    }
}

impl<V: Copy> Machine<V> {
    /// The state of a freshly built arena.
    pub fn new(fee: u32, tick_spacing: i32) -> (machine: Self)
        ensures
            machine == Self::built(fee, tick_spacing),
    {
        Machine { fee, tick_spacing, steps: 0, save: None, stage: Stage::Built }
    }

    /// The caller-visible state of the run.
    pub fn phase(&self) -> (phase: Phase)
        ensures
            phase == self.stage.phase(),
    {
        match self.stage {
            Stage::Built => Phase::Built,
            Stage::Completed => Phase::Completed,
            Stage::Failed { .. } => Phase::Failed,
            _ => Phase::Running,
        }
    }

    /// Begins a run of `steps` ticks whose record is saved to `save`.
    pub fn start(&mut self, steps: usize, save: Option<SaveData>) -> (action: Action<V>)
        ensures
            (*final(self), action) == old(self).begin(steps, save),
    {
        match self.stage {
            Stage::Built => {
                self.steps = steps;
                self.save = save;
                self.stage = Stage::StartingNode;
                Action::StartNode
            },
            _ => Action::Idle,
        }
    }

    fn give_up(&mut self, error: ArenaError) -> (action: Action<V>)
        ensures
            (*final(self), action) == old(self).abort(error),
    {
        self.stage = Stage::TearingDown { outcome: Err(error) };
        Action::Teardown
    }

    /// Enters tick `tick`, or the save if the run has no such tick; `None`
    /// stands for the tick after the largest that can be counted.
    fn tick_or_save(&mut self, site: Deployment, tick: Option<usize>) -> (action: Action<V>)
        ensures
            (*final(self), action) == old(self).enter_tick(
                site,
                match tick {
                    Some(tick) => tick as int,
                    None => usize::MAX + 1,
                },
            ),
    {
        match tick {
            Some(tick) if tick < self.steps => {
                self.stage = Stage::Advancing { site, tick };
                Action::AdvanceFeed
            },
            _ => {
                self.stage = Stage::Saving;
                Action::Save(self.save.take())
            },
        }
    }

    /// Reports the outcome of the last action and returns the next one.
    pub fn step(&mut self, event: Event<V>) -> (action: Action<V>)
        ensures
            (*final(self), action) == old(self).next(event),
    {
        match self.stage {
            Stage::Built => Action::Idle,
            Stage::StartingNode => match event {
                Event::Done => {
                    self.stage = Stage::QueryingFeeLimit;
                    Action::QueryFeeLimit
                },
                _ => {
                    self.stage = Stage::Failed { error: ArenaError::NodeStartupError };
                    Action::Finish(Err(ArenaError::NodeStartupError))
                },
            },
            Stage::QueryingFeeLimit => match event {
                Event::FeeLimit(limit) => {
                    if self.fee <= limit as u32 {
                        self.stage = Stage::Deploying;
                        Action::Deploy { fee: self.fee, tick_spacing: self.tick_spacing }
                    } else {
                        self.give_up(ArenaError::ConfigError(ConfigField::Fee))
                    }
                },
                _ => self.give_up(ArenaError::DeploymentError),
            },
            Stage::Deploying => match event {
                Event::Deployed(addresses) => {
                    let pool = PoolKey {
                        currency0: addresses.currency0,
                        currency1: addresses.currency1,
                        fee: self.fee,
                        tick_spacing: self.tick_spacing,
                        hooks: addresses.hooks,
                    };
                    self.stage = Stage::ReadingFeed {
                        site: Deployment { manager: addresses.manager, pool },
                    };
                    Action::ReadFeed
                },
                _ => self.give_up(ArenaError::DeploymentError),
            },
            Stage::ReadingFeed { site } => match event {
                Event::Value(value) => {
                    self.stage = Stage::Initializing { site };
                    Action::Init(Signal::new(site.manager, site.pool, value, None))
                },
                _ => self.give_up(ArenaError::StepExecutionError),
            },
            Stage::Initializing { site } => match event {
                Event::Done => self.tick_or_save(site, Some(0)),
                _ => self.give_up(ArenaError::StepExecutionError),
            },
            Stage::Advancing { site, tick } => match event {
                Event::Value(value) => {
                    self.stage = Stage::Processing { site, tick, value };
                    Action::Process(Signal::new(site.manager, site.pool, value, Some(tick)))
                },
                _ => self.give_up(ArenaError::StepExecutionError),
            },
            Stage::Processing { site, tick, value } => match event {
                Event::Done => {
                    self.stage = Stage::Arbitraging { site, tick, value };
                    Action::Arbitrage(Signal::new(site.manager, site.pool, value, Some(tick)))
                },
                _ => self.give_up(ArenaError::StepExecutionError),
            },
            Stage::Arbitraging { site, tick, value } => match event {
                Event::Done => {
                    self.stage = Stage::Logging { site, tick };
                    Action::Log(value)
                },
                _ => self.give_up(ArenaError::StepExecutionError),
            },
            Stage::Logging { site, tick } => match event {
                Event::Done => self.tick_or_save(site, tick.checked_add(1)),
                _ => self.give_up(ArenaError::StepExecutionError),
            },
            Stage::Saving => {
                self.stage = Stage::TearingDown { outcome: Ok(()) };
                Action::Teardown
            },
            Stage::TearingDown { outcome } => match outcome {
                Ok(_) => {
                    self.stage = Stage::Completed;
                    Action::Finish(Ok(()))
                },
                Err(error) => {
                    self.stage = Stage::Failed { error };
                    Action::Finish(Err(error))
                },
            },
            Stage::Completed => Action::Finish(Ok(())),
            Stage::Failed { error } => Action::Finish(Err(error)),
        }
    }
}

impl<V> Stage<V> {
    /// The error that a run reports when the action awaited in this stage
    /// fails, for the stages in which a failure ends the run: the node's
    /// start, the query and the deployment, and every call of a collaborator
    /// up to the last `log`.
    pub open spec fn failure(self) -> Option<ArenaError> {
        match self {
            Stage::StartingNode => Some(ArenaError::NodeStartupError),
            Stage::QueryingFeeLimit | Stage::Deploying => Some(ArenaError::DeploymentError),
            Stage::ReadingFeed { .. }
            | Stage::Initializing { .. }
            | Stage::Advancing { .. }
            | Stage::Processing { .. }
            | Stage::Arbitraging { .. }
            | Stage::Logging { .. } => Some(ArenaError::StepExecutionError),
            _ => None,
        }
    }
}

/// A failure ends the run with the error of its stage, and a node that has
/// started is torn down first: when the awaited action fails, a machine that
/// waits for the node fails at once; a machine in any later stage asks for the
/// teardown and nothing else, and fails when the teardown is reported,
/// however it went.
pub proof fn law_failure_ends_the_run<V>(machine: Machine<V>, report: Event<V>)
    requires
        machine.stage.failure() is Some,
    ensures
        ({
            let error = machine.stage.failure()->0;
            let failed = (
                machine.at(Stage::Failed { error }),
                Action::<V>::Finish(Err(error)),
            );
            let (after, action) = machine.next(Event::Failed);
            if machine.stage is StartingNode {
                (after, action) == failed
            } else {
                action == Action::<V>::Teardown && after.next(report) == failed
            }
        }),
{
}

} // verus!
