use crate::config::Config;
use crate::engine::arbitrageur::Arbitrageur;
use crate::engine::inspector::{Inspector, SaveData};
use crate::engine::machine::{Action, Event, Machine, Phase};
use crate::error::{ArenaError, ConfigField, StepFailure};
use crate::feed::Feed;
use crate::strategy::Strategy;
use vstd::prelude::*;

verus! {

/// The largest fee a builder accepts. The chain reports its maximum protocol
/// fee as a 16-bit number, so a larger fee exceeds it whatever the chain holds.
pub const FEE_CEILING: u32 = 65535;

/// Staged assembly of an [`Arena`]: each collaborator and pool parameter is
/// absent until its setter is called, and a later call replaces an earlier one.
#[verifier::reject_recursive_types(P)]
#[verifier::reject_recursive_types(V)]
pub struct ArenaBuilder<P, V> {
    /// Strategy to run in the simulation.
    pub strategy: Option<Box<dyn Strategy<P, V>>>,
    /// Price process that supplies the fair value.
    pub feed: Option<Box<dyn Feed<V>>>,
    /// Inspector that records the run.
    pub inspector: Option<Box<dyn Inspector<V>>>,
    /// Arbitrageur that trades against the pool.
    pub arbitrageur: Option<Box<dyn Arbitrageur<P, V>>>,
    /// Fee of the pool.
    pub fee: Option<u32>,
    /// Tick spacing of the pool.
    pub tick_spacing: Option<i32>,
}

/// The assembled engine. It owns the collaborators and the state of its run.
#[verifier::reject_recursive_types(P)]
#[verifier::reject_recursive_types(V)]
pub struct Arena<P, V> {
    /// Strategy to run in the simulation.
    pub strategy: Box<dyn Strategy<P, V>>,
    /// Price process that supplies the fair value.
    pub feed: Box<dyn Feed<V>>,
    /// Inspector that records the run.
    pub inspector: Box<dyn Inspector<V>>,
    /// Arbitrageur that trades against the pool.
    pub arbitrageur: Box<dyn Arbitrageur<P, V>>,
    /// State of the arena's run.
    pub machine: Machine<V>,
}

impl<P, V> ArenaBuilder<P, V> {
    /// The first field, in the order strategy, feed, inspector, arbitrageur,
    /// fee, tick spacing, that is missing or invalid: a fee above
    /// [`FEE_CEILING`], a tick spacing that is not positive. `None` when the
    /// builder is complete and valid.
    pub open spec fn fault(self) -> Option<ConfigField> {
        if self.strategy is None {
            Some(ConfigField::Strategy)
        } else if self.feed is None {
            Some(ConfigField::Feed)
        } else if self.inspector is None {
            Some(ConfigField::Inspector)
        } else if self.arbitrageur is None {
            Some(ConfigField::Arbitrageur)
        } else if self.fee is None || self.fee->0 > FEE_CEILING {
            Some(ConfigField::Fee)
        } else if self.tick_spacing is None || self.tick_spacing->0 <= 0 {
            Some(ConfigField::TickSpacing)
        } else {
            None
        }
    }

    /// Public constructor function for a new [`ArenaBuilder`]: nothing is set.
    pub fn new() -> (builder: Self)
        ensures
            builder.strategy is None,
            builder.feed is None,
            builder.inspector is None,
            builder.arbitrageur is None,
            builder.fee is None,
            builder.tick_spacing is None,
    {
        ArenaBuilder {
            strategy: None,
            feed: None,
            inspector: None,
            arbitrageur: None,
            fee: None,
            tick_spacing: None,
        }
    }

    /// Set the strategy that will be run in the simulation.
    pub fn with_strategy(self, strategy: Box<dyn Strategy<P, V>>) -> (builder: Self)
        ensures
            builder === (ArenaBuilder { strategy: Some(strategy), ..self }),
    {
        let mut builder = self;
        builder.strategy = Some(strategy);
        builder
    }

    /// Set the feed that supplies the fair value.
    pub fn with_feed(self, feed: Box<dyn Feed<V>>) -> (builder: Self)
        ensures
            builder === (ArenaBuilder { feed: Some(feed), ..self }),
    {
        let mut builder = self;
        builder.feed = Some(feed);
        builder
    }

    /// Set the inspector that records the run.
    pub fn with_inspector(self, inspector: Box<dyn Inspector<V>>) -> (builder: Self)
        ensures
            builder === (ArenaBuilder { inspector: Some(inspector), ..self }),
    {
        let mut builder = self;
        builder.inspector = Some(inspector);
        builder
    }

    /// Set the arbitrageur that trades against the pool.
    pub fn with_arbitrageur(self, arbitrageur: Box<dyn Arbitrageur<P, V>>) -> (builder: Self)
        ensures
            builder === (ArenaBuilder { arbitrageur: Some(arbitrageur), ..self }),
    {
        let mut builder = self;
        builder.arbitrageur = Some(arbitrageur);
        builder
    }

    /// Set the pool fee.
    pub fn with_fee(self, fee: u32) -> (builder: Self)
        ensures
            builder === (ArenaBuilder { fee: Some(fee), ..self }),
    {
        let mut builder = self;
        builder.fee = Some(fee);
        builder
    }

    /// Set the pool tick spacing.
    pub fn with_tick_spacing(self, tick_spacing: i32) -> (builder: Self)
        ensures
            builder === (ArenaBuilder { tick_spacing: Some(tick_spacing), ..self }),
    {
        let mut builder = self;
        builder.tick_spacing = Some(tick_spacing);
        builder
    }

    /// Validates the builder and assembles the arena. Fails with a
    /// [`ArenaError::ConfigError`] that names the first faulty field; succeeds
    /// otherwise, with the collaborators and parameters that were set and no
    /// run begun.
    pub fn build(self) -> (result: Result<Arena<P, V>, ArenaError>)
        ensures
            match self.fault() {
                Some(field) => result is Err && result->Err_0 == ArenaError::ConfigError(field),
                None => {
                    &&& result is Ok
                    &&& result->Ok_0.strategy === self.strategy->0
                    &&& result->Ok_0.feed === self.feed->0
                    &&& result->Ok_0.inspector === self.inspector->0
                    &&& result->Ok_0.arbitrageur === self.arbitrageur->0
                    &&& result->Ok_0@ == Machine::<V>::built(self.fee->0, self.tick_spacing->0)
                },
            },
    {
        let ArenaBuilder { strategy, feed, inspector, arbitrageur, fee, tick_spacing } = self;
        let strategy = match strategy {
            Some(strategy) => strategy,
            None => {
                return Err(ArenaError::ConfigError(ConfigField::Strategy));
            },
        };
        let feed = match feed {
            Some(feed) => feed,
            None => {
                return Err(ArenaError::ConfigError(ConfigField::Feed));
            },
        };
        let inspector = match inspector {
            Some(inspector) => inspector,
            None => {
                return Err(ArenaError::ConfigError(ConfigField::Inspector));
            },
        };
        let arbitrageur = match arbitrageur {
            Some(arbitrageur) => arbitrageur,
            None => {
                return Err(ArenaError::ConfigError(ConfigField::Arbitrageur));
            },
        };
        let fee = match fee {
            Some(fee) if fee <= FEE_CEILING => fee,
            _ => {
                return Err(ArenaError::ConfigError(ConfigField::Fee));
            },
        };
        let tick_spacing = match tick_spacing {
            Some(tick_spacing) if tick_spacing > 0 => tick_spacing,
            _ => {
                return Err(ArenaError::ConfigError(ConfigField::TickSpacing));
            },
        };
        Ok(
            Arena {
                strategy,
                feed,
                inspector,
                arbitrageur,
                machine: Machine {
                    fee,
                    tick_spacing,
                    steps: 0,
                    save: None,
                    stage: crate::engine::machine::Stage::Built,
                },
            },
        )
    }
}

/// The event that reports a collaborator's result.
fn outcome<V>(result: Result<(), StepFailure>) -> (event: Event<V>)
    ensures
        event == match result {
            Ok(_) => Event::<V>::Done,
            Err(_) => Event::<V>::Failed,
        },
{
    match result {
        Ok(_) => Event::Done,
        Err(_) => Event::Failed,
    }
}

impl<P, V> View for Arena<P, V> {
    type V = Machine<V>;

    /// The state of the arena's run.
    open spec fn view(&self) -> Machine<V> {
        self.machine
    }
}

impl<P, V> Arena<P, V> {
    /// What the arena's collaborators may answer to `action`: a value from
    /// the feed, success or failure from a call that reaches the chain,
    /// success from a save. `None` for an action that is not theirs to
    /// perform.
    pub open spec fn answers(action: Action<V>) -> Option<Set<Event<V>>> {
        match action {
            Action::ReadFeed | Action::AdvanceFeed => Some(Set::new(|e: Event<V>| e is Value)),
            Action::Init(_) | Action::Process(_) | Action::Arbitrage(_) | Action::Log(_) => Some(
                Set::new(|e: Event<V>| e is Done || e is Failed),
            ),
            Action::Save(_) => Some(Set::new(|e: Event<V>| e is Done)),
            _ => None,
        }
    }
}

impl<P, V: Copy> Arena<P, V> {
    /// Has the collaborator that `action` names perform it, and returns what
    /// came of it, ready to be reported with [`Arena::resume`]. An action
    /// that is the driver's to perform comes back unperformed. The state of
    /// the run, the strategy and the arbitrageur stay as they are; the feed
    /// and the inspector may change under the call.
    pub fn perform(&mut self, provider: P, action: Action<V>) -> (reply: Result<
        Event<V>,
        Action<V>,
    >)
        ensures
            match Self::answers(action) {
                Some(events) => reply is Ok && events.contains(reply->Ok_0),
                None => reply == Err::<Event<V>, Action<V>>(action),
            },
            final(self)@ == old(self)@,
            final(self).strategy == old(self).strategy,
            final(self).arbitrageur == old(self).arbitrageur,
    {
        match action {
            Action::ReadFeed => Ok(Event::Value(self.feed.current_value())),
            Action::AdvanceFeed => Ok(Event::Value(self.feed.next())),
            Action::Init(signal) => Ok(outcome(self.strategy.init(provider, signal))),
            Action::Process(signal) => Ok(outcome(self.strategy.process(provider, signal))),
            Action::Arbitrage(signal) => Ok(
                outcome(self.arbitrageur.arbitrage(&signal, provider)),
            ),
            Action::Log(value) => Ok(outcome(self.inspector.log(value))),
            Action::Save(save_type) => {
                self.inspector.save(save_type);
                Ok(Event::Done)
            },
            other => Err(other),
        }
    }

    /// The caller-visible state of the arena.
    pub fn phase(&self) -> (phase: Phase)
        ensures
            phase == self@.stage.phase(),
    {
        self.machine.phase()
    }

    /// Begins a run with the given configuration, on a built arena: the arena
    /// is then running and the node is to be started. On an arena that has
    /// run already nothing changes and the action is [`Action::Idle`]. The
    /// inspector will be asked to save without a selector.
    pub fn run(&mut self, config: Config) -> (action: Action<V>)
        ensures
            (final(self)@, action) == old(self)@.begin(config.steps, None),
            final(self).strategy == old(self).strategy,
            final(self).feed == old(self).feed,
            final(self).inspector == old(self).inspector,
            final(self).arbitrageur == old(self).arbitrageur,
    {
        self.machine.start(config.steps, None)
    }

    /// As [`Arena::run`], with the selector that the inspector is given when
    /// it is asked to save.
    pub fn run_and_save(&mut self, config: Config, save_type: SaveData) -> (action: Action<V>)
        ensures
            (final(self)@, action) == old(self)@.begin(config.steps, Some(save_type)),
            final(self).strategy == old(self).strategy,
            final(self).feed == old(self).feed,
            final(self).inspector == old(self).inspector,
            final(self).arbitrageur == old(self).arbitrageur,
    {
        self.machine.start(config.steps, Some(save_type))
    }

    /// Reports the outcome of the action the arena asked for last, and
    /// returns the next one, as the transition function has it.
    pub fn resume(&mut self, event: Event<V>) -> (action: Action<V>)
        ensures
            (final(self)@, action) == old(self)@.next(event),
            final(self).strategy == old(self).strategy,
            final(self).feed == old(self).feed,
            final(self).inspector == old(self).inspector,
            final(self).arbitrageur == old(self).arbitrageur,
    {
        self.machine.step(event)
    }
}

/// A builder with all six fields set, a fee within the chain's limit and a
/// positive tick spacing has no fault, so [`ArenaBuilder::build`] succeeds on
/// it, whatever the limit is.
pub proof fn law_complete_builder_builds<P, V>(builder: ArenaBuilder<P, V>, limit: u16)
    requires
        builder.strategy is Some,
        builder.feed is Some,
        builder.inspector is Some,
        builder.arbitrageur is Some,
        builder.fee is Some,
        builder.tick_spacing is Some,
        builder.fee->0 <= limit,
        builder.tick_spacing->0 > 0,
    ensures
        builder.fault() is None,
{
}

/// A builder that lacks one of its six fields has a fault, so
/// [`ArenaBuilder::build`] fails on it with a configuration error and yields
/// no arena; the fault names a field that is missing or invalid.
pub proof fn law_incomplete_builder_fails<P, V>(builder: ArenaBuilder<P, V>)
    requires
        builder.strategy is None || builder.feed is None || builder.inspector is None
            || builder.arbitrageur is None || builder.fee is None || builder.tick_spacing
            is None,
    ensures
        builder.fault() is Some,
        match builder.fault()->0 {
            ConfigField::Strategy => builder.strategy is None,
            ConfigField::Feed => builder.feed is None,
            ConfigField::Inspector => builder.inspector is None,
            ConfigField::Arbitrageur => builder.arbitrageur is None,
            ConfigField::Fee => builder.fee is None || builder.fee->0 > FEE_CEILING,
            ConfigField::TickSpacing => builder.tick_spacing is None || builder.tick_spacing->0
                <= 0,
        },
{
}

/// A fee above the chain's limit never reaches a deployment: either the
/// builder has a fault already, or the arena it builds, once the chain has
/// reported the limit, tears the node down and fails with a configuration
/// error that names the fee.
pub proof fn law_excessive_fee_is_refused<P, V>(builder: ArenaBuilder<P, V>, limit: u16)
    requires
        builder.fee is Some,
        builder.fee->0 > limit,
    ensures
        builder.fault() is Some || ({
            let built = Machine::<V>::built(builder.fee->0, builder.tick_spacing->0);
            let asking = built.at(crate::engine::machine::Stage::QueryingFeeLimit);
            asking.next(Event::FeeLimit(limit)) == asking.abort(
                ArenaError::ConfigError(ConfigField::Fee),
            )
        }),
{
}

} // verus!
