use alloy::primitives::Address;
use arena_core::config::Config;
use arena_core::engine::inspector::SaveData;
use arena_core::engine::machine::{
    Action, Addresses, Deployment, Event, Machine, Phase, Stage,
};
use arena_core::error::{ArenaError, ConfigField};
use arena_core::{PoolKey, Signal};

fn deployed() -> Event<u64> {
    Event::Deployed(Addresses {
        manager: Address::repeat_byte(0xaa),
        currency0: Address::repeat_byte(0x01),
        currency1: Address::repeat_byte(0x02),
        hooks: Address::ZERO,
    })
}

fn pool(fee: u32, tick_spacing: i32) -> PoolKey {
    PoolKey {
        currency0: Address::repeat_byte(0x01),
        currency1: Address::repeat_byte(0x02),
        fee,
        tick_spacing,
        hooks: Address::ZERO,
    }
}

fn signal(value: u64, step: Option<usize>) -> Signal<u64> {
    Signal::new(Address::repeat_byte(0xaa), pool(3000, 60), value, step)
}

/// Reports `events` one after the other and collects the actions asked for.
fn replay(machine: &mut Machine<u64>, events: Vec<Event<u64>>) -> Vec<Action<u64>> {
    events.into_iter().map(|event| machine.step(event)).collect()
}

/// A machine that has been deployed and initialised and waits for the feed's
/// value of the first tick.
fn at_first_tick(steps: usize) -> Machine<u64> {
    let mut machine = Machine::new(3000, 60);
    machine.start(steps, None);
    replay(
        &mut machine,
        vec![Event::Done, Event::FeeLimit(3000), deployed(), Event::Value(100), Event::Done],
    );
    machine
}

#[test]
fn signal_new_holds_its_arguments() {
    let key = pool(500, 10);
    let made = Signal::new(Address::repeat_byte(9), key, 1.05f64, Some(3));
    assert_eq!(made.manager, Address::repeat_byte(9));
    assert_eq!(made.pool, key);
    assert_eq!(made.current_value, 1.05);
    assert_eq!(made.step, Some(3));
    let first = Signal::new(Address::ZERO, key, 2u8, None);
    assert_eq!(first.step, None);
    assert_eq!(first, Signal { manager: Address::ZERO, pool: key, current_value: 2u8, step: None });
}

#[test]
fn config_new_holds_the_steps() {
    assert_eq!(Config::new(0).steps, 0);
    assert_eq!(Config::new(17).steps, 17);
    assert_eq!(Config::new(usize::MAX).steps, usize::MAX);
}

#[test]
fn new_machine_is_built() {
    let machine: Machine<u64> = Machine::new(3000, 60);
    assert_eq!(machine.fee, 3000);
    assert_eq!(machine.tick_spacing, 60);
    assert_eq!(machine.steps, 0);
    assert_eq!(machine.save, None);
    assert_eq!(machine.stage, Stage::Built);
    assert_eq!(machine.phase(), Phase::Built);
}

#[test]
fn start_leaves_built_once() {
    let mut machine: Machine<u64> = Machine::new(3000, 60);
    let selector = SaveData { target: "run.json".to_string() };
    assert_eq!(machine.start(4, Some(selector.clone())), Action::StartNode);
    assert_eq!(machine.stage, Stage::StartingNode);
    assert_eq!(machine.steps, 4);
    assert_eq!(machine.save, Some(selector.clone()));
    assert_eq!(machine.phase(), Phase::Running);
    assert_eq!(machine.start(9, None), Action::Idle);
    assert_eq!(machine.steps, 4);
    assert_eq!(machine.save, Some(selector));
    assert_eq!(machine.stage, Stage::StartingNode);
}

#[test]
fn successful_run_of_two_ticks() {
    let mut machine: Machine<u64> = Machine::new(3000, 60);
    let selector = SaveData { target: "run.json".to_string() };
    let first = machine.start(2, Some(selector.clone()));
    assert_eq!(first, Action::StartNode);
    let actions = replay(
        &mut machine,
        vec![
            Event::Done,
            Event::FeeLimit(3000),
            deployed(),
            Event::Value(100),
            Event::Done,
            Event::Value(105),
            Event::Done,
            Event::Done,
            Event::Done,
            Event::Value(95),
            Event::Done,
            Event::Done,
            Event::Done,
            Event::Done,
            Event::Done,
        ],
    );
    assert_eq!(
        actions,
        vec![
            Action::QueryFeeLimit,
            Action::Deploy { fee: 3000, tick_spacing: 60 },
            Action::ReadFeed,
            Action::Init(signal(100, None)),
            Action::AdvanceFeed,
            Action::Process(signal(105, Some(0))),
            Action::Arbitrage(signal(105, Some(0))),
            Action::Log(105),
            Action::AdvanceFeed,
            Action::Process(signal(95, Some(1))),
            Action::Arbitrage(signal(95, Some(1))),
            Action::Log(95),
            Action::Save(Some(selector)),
            Action::Teardown,
            Action::Finish(Ok(())),
        ]
    );
    assert_eq!(machine.stage, Stage::Completed);
    assert_eq!(machine.phase(), Phase::Completed);
    assert_eq!(machine.save, None);
    assert_eq!(machine.step(Event::Failed), Action::Finish(Ok(())));
    assert_eq!(machine.stage, Stage::Completed);
}

#[test]
fn successful_run_without_ticks() {
    let mut machine: Machine<u64> = Machine::new(1, 1);
    machine.start(0, None);
    let actions = replay(
        &mut machine,
        vec![
            Event::Done,
            Event::FeeLimit(u16::MAX),
            deployed(),
            Event::Value(7),
            Event::Done,
            Event::Done,
            Event::Done,
        ],
    );
    let site = Signal::new(Address::repeat_byte(0xaa), pool(1, 1), 7, None);
    assert_eq!(
        actions,
        vec![
            Action::QueryFeeLimit,
            Action::Deploy { fee: 1, tick_spacing: 1 },
            Action::ReadFeed,
            Action::Init(site),
            Action::Save(None),
            Action::Teardown,
            Action::Finish(Ok(())),
        ]
    );
    assert_eq!(machine.phase(), Phase::Completed);
}

#[test]
fn stages_follow_the_tick() {
    let mut machine = at_first_tick(1);
    let site = Deployment { manager: Address::repeat_byte(0xaa), pool: pool(3000, 60) };
    assert_eq!(machine.stage, Stage::Advancing { site, tick: 0 });
    machine.step(Event::Value(5));
    assert_eq!(machine.stage, Stage::Processing { site, tick: 0, value: 5 });
    machine.step(Event::Done);
    assert_eq!(machine.stage, Stage::Arbitraging { site, tick: 0, value: 5 });
    machine.step(Event::Done);
    assert_eq!(machine.stage, Stage::Logging { site, tick: 0 });
    machine.step(Event::Done);
    assert_eq!(machine.stage, Stage::Saving);
    machine.step(Event::Done);
    assert_eq!(machine.stage, Stage::TearingDown { outcome: Ok(()) });
    assert_eq!(machine.phase(), Phase::Running);
}

#[test]
fn node_startup_failure() {
    for event in [Event::Failed, Event::FeeLimit(1), Event::Value(3), deployed()] {
        let mut machine: Machine<u64> = Machine::new(3000, 60);
        machine.start(3, None);
        assert_eq!(machine.step(event), Action::Finish(Err(ArenaError::NodeStartupError)));
        assert_eq!(machine.stage, Stage::Failed { error: ArenaError::NodeStartupError });
        assert_eq!(machine.phase(), Phase::Failed);
        assert_eq!(machine.step(Event::Done), Action::Finish(Err(ArenaError::NodeStartupError)));
    }
}

#[test]
fn fee_above_limit_is_a_configuration_error() {
    let mut machine: Machine<u64> = Machine::new(3000, 60);
    machine.start(3, None);
    let actions = replay(&mut machine, vec![Event::Done, Event::FeeLimit(2999), Event::Failed]);
    assert_eq!(
        actions,
        vec![
            Action::QueryFeeLimit,
            Action::Teardown,
            Action::Finish(Err(ArenaError::ConfigError(ConfigField::Fee))),
        ]
    );
    assert_eq!(
        machine.stage,
        Stage::Failed { error: ArenaError::ConfigError(ConfigField::Fee) }
    );
}

#[test]
fn failed_query_and_failed_deployment_are_deployment_errors() {
    let mut machine: Machine<u64> = Machine::new(3000, 60);
    machine.start(3, None);
    let actions = replay(&mut machine, vec![Event::Done, Event::Failed, Event::Done]);
    assert_eq!(
        actions,
        vec![
            Action::QueryFeeLimit,
            Action::Teardown,
            Action::Finish(Err(ArenaError::DeploymentError)),
        ]
    );

    let mut machine: Machine<u64> = Machine::new(3000, 60);
    machine.start(3, None);
    let actions =
        replay(&mut machine, vec![Event::Done, Event::FeeLimit(3001), Event::Failed, Event::Done]);
    assert_eq!(
        actions,
        vec![
            Action::QueryFeeLimit,
            Action::Deploy { fee: 3000, tick_spacing: 60 },
            Action::Teardown,
            Action::Finish(Err(ArenaError::DeploymentError)),
        ]
    );
    assert_eq!(machine.phase(), Phase::Failed);
}

#[test]
fn failure_of_each_call_is_a_step_execution_error() {
    let script = vec![
        Event::Done,
        Event::FeeLimit(3000),
        deployed(),
        Event::Value(100),
        Event::Done,
        Event::Value(105),
        Event::Done,
        Event::Done,
        Event::Done,
    ];
    for failing in 3..script.len() {
        let mut machine: Machine<u64> = Machine::new(3000, 60);
        machine.start(2, None);
        let mut events: Vec<Event<u64>> = script[..failing].to_vec();
        events.push(Event::Failed);
        events.push(Event::Failed);
        let actions = replay(&mut machine, events);
        assert_eq!(actions.len(), failing + 2);
        assert_eq!(actions[failing], Action::Teardown);
        assert_eq!(
            actions[failing + 1],
            Action::Finish(Err(ArenaError::StepExecutionError))
        );
        assert!(!actions.iter().any(|action| matches!(action, Action::Save(_))));
        assert_eq!(machine.stage, Stage::Failed { error: ArenaError::StepExecutionError });
    }
}

#[test]
fn report_that_does_not_fit_counts_as_failure() {
    let mut machine = at_first_tick(2);
    assert_eq!(machine.step(Event::Done), Action::Teardown);
    assert_eq!(
        machine.stage,
        Stage::TearingDown { outcome: Err(ArenaError::StepExecutionError) }
    );
}

#[test]
fn largest_run_does_not_overflow() {
    let mut machine = at_first_tick(usize::MAX);
    let site = Deployment { manager: Address::repeat_byte(0xaa), pool: pool(3000, 60) };
    machine.stage = Stage::Logging { site, tick: usize::MAX - 1 };
    assert_eq!(machine.step(Event::Done), Action::Save(None));
    machine.stage = Stage::Logging { site, tick: usize::MAX };
    assert_eq!(machine.step(Event::Done), Action::Save(None));
    machine.stage = Stage::Logging { site, tick: usize::MAX - 2 };
    assert_eq!(machine.step(Event::Done), Action::AdvanceFeed);
    assert_eq!(machine.stage, Stage::Advancing { site, tick: usize::MAX - 1 });
}
