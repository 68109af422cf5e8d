use crate::engine::inspector::SaveData;
use crate::engine::machine::{Action, Addresses, Deployment, Event, Machine, Stage};
use crate::error::{ArenaError, ConfigField};
use crate::Signal;
use vstd::prelude::*;

verus! {

/// The state reached and the actions asked for when `events` are reported,
/// one after the other, to a machine in state `machine`.
pub open spec fn replay<V>(machine: Machine<V>, events: Seq<Event<V>>) -> (Machine<V>, Seq<Action<V>>)
    decreases events.len(),
{
    if events.len() == 0 {
        (machine, Seq::empty())
    } else {
        let (before, actions) = replay(machine, events.drop_last());
        let (after, action) = before.next(events.last());
        (after, actions.push(action))
    }
}

/// A run from its beginning: the state reached and every action asked for
/// when a run of `steps` ticks is begun on `machine` and `events` are then
/// reported one after the other.
pub open spec fn run<V>(
    machine: Machine<V>,
    steps: usize,
    save: Option<SaveData>,
    events: Seq<Event<V>>,
) -> (Machine<V>, Seq<Action<V>>) {
    let (started, first) = machine.begin(steps, save);
    let (after, actions) = replay(started, events);
    (after, seq![first] + actions)
}

/// The signal of a deployment, a value and a step.
pub open spec fn signal_at<V>(site: Deployment, value: V, step: Option<usize>) -> Signal<V> {
    Signal { manager: site.manager, pool: site.pool, current_value: value, step }
}

/// The reports of a run in which everything succeeds, up to the end of
/// initialisation: the node starts, the chain reports `limit`, the contracts
/// are deployed at `addresses`, the feed stands at `initial`, `init` succeeds.
pub open spec fn opening_events<V>(limit: u16, addresses: Addresses, initial: V) -> Seq<Event<V>> {
    seq![
        Event::Done,
        Event::FeeLimit(limit),
        Event::Deployed(addresses),
        Event::Value(initial),
        Event::Done,
    ]
}

/// The reports of the first `count` ticks when everything succeeds and the
/// feed yields `values`: for each tick the feed's value, then success of
/// `process`, `arbitrage` and `log`.
pub open spec fn tick_events<V>(values: Seq<V>, count: nat) -> Seq<Event<V>>
    decreases count,
{
    if count == 0 {
        Seq::empty()
    } else {
        tick_events(values, (count - 1) as nat) + seq![
            Event::Value(values[count - 1]),
            Event::Done,
            Event::Done,
            Event::Done,
        ]
    }
}

/// The actions of the first `count` ticks: for tick `k` the feed is advanced,
/// then `process`, `arbitrage` and `log` are called, in this order, with the
/// feed's value of that tick and the step `k`.
pub open spec fn tick_actions<V>(site: Deployment, values: Seq<V>, count: nat) -> Seq<Action<V>>
    decreases count,
{
    if count == 0 {
        Seq::empty()
    } else {
        let tick = (count - 1) as usize;
        let value = values[count - 1];
        tick_actions(site, values, (count - 1) as nat) + seq![
            Action::AdvanceFeed,
            Action::Process(signal_at(site, value, Some(tick))),
            Action::Arbitrage(signal_at(site, value, Some(tick))),
            Action::Log(value),
        ]
    }
}

/// All the reports of a run in which everything succeeds: the opening, one
/// tick for each of `values`, then the save and the teardown.
pub open spec fn successful_events<V>(
    limit: u16,
    addresses: Addresses,
    initial: V,
    values: Seq<V>,
) -> Seq<Event<V>> {
    opening_events(limit, addresses, initial) + tick_events(values, values.len()) + seq![
        Event::Done,
        Event::Done,
    ]
}

/// All the actions of a run in which everything succeeds.
pub open spec fn successful_actions<V>(
    fee: u32,
    tick_spacing: i32,
    save: Option<SaveData>,
    addresses: Addresses,
    initial: V,
    values: Seq<V>,
) -> Seq<Action<V>> {
    let site = addresses.site(fee, tick_spacing);
    seq![
        Action::StartNode,
        Action::QueryFeeLimit,
        Action::Deploy { fee, tick_spacing },
        Action::ReadFeed,
        Action::Init(signal_at(site, initial, None)),
    ] + tick_actions(site, values, values.len()) + seq![
        Action::Save(save),
        Action::Teardown,
        Action::Finish(Ok(())),
    ]
}

/// Reporting one more event extends the replay by one transition.
pub proof fn lemma_replay_push<V>(machine: Machine<V>, events: Seq<Event<V>>, event: Event<V>)
    ensures
        replay(machine, events.push(event)) == ({
            let (before, actions) = replay(machine, events);
            let (after, action) = before.next(event);
            (after, actions.push(action))
        }),
{
    assert(events.push(event).drop_last() =~= events);
}

/// The state of a run in which everything has succeeded up to the end of
/// tick `count - 1` (of initialisation, for `count == 0`).
spec fn state_after_ticks<V>(started: Machine<V>, site: Deployment, count: nat) -> Machine<V> {
    if count < started.steps {
        started.at(Stage::Advancing { site, tick: count as usize })
    } else {
        Machine { save: None, stage: Stage::Saving, ..started }
    }
}

/// The action that follows tick `count - 1`.
spec fn action_after_ticks<V>(started: Machine<V>, count: nat) -> Action<V> {
    if count < started.steps {
        Action::AdvanceFeed
    } else {
        Action::Save(started.save)
    }
}

proof fn lemma_opening<V>(started: Machine<V>, limit: u16, addresses: Addresses, initial: V)
    requires
        started.stage is StartingNode,
        started.fee <= limit,
    ensures
        replay(started, opening_events(limit, addresses, initial)) == ({
            let site = addresses.site(started.fee, started.tick_spacing);
            (
                state_after_ticks(started, site, 0),
                seq![
                    Action::QueryFeeLimit,
                    Action::Deploy { fee: started.fee, tick_spacing: started.tick_spacing },
                    Action::ReadFeed,
                    Action::Init(signal_at(site, initial, None)),
                    action_after_ticks(started, 0),
                ],
            )
        }),
{
    let e0: Seq<Event<V>> = Seq::empty();
    let e1 = e0.push(Event::Done);
    let e2 = e1.push(Event::FeeLimit(limit));
    let e3 = e2.push(Event::Deployed(addresses));
    let e4 = e3.push(Event::Value(initial));
    let e5 = e4.push(Event::Done);
    lemma_replay_push(started, e0, Event::Done);
    lemma_replay_push(started, e1, Event::FeeLimit(limit));
    lemma_replay_push(started, e2, Event::Deployed(addresses));
    lemma_replay_push(started, e3, Event::Value(initial));
    lemma_replay_push(started, e4, Event::Done);
    assert(e5 =~= opening_events(limit, addresses, initial));
    let site = addresses.site(started.fee, started.tick_spacing);
    assert(replay(started, e5).1 =~= seq![
        Action::QueryFeeLimit,
        Action::Deploy { fee: started.fee, tick_spacing: started.tick_spacing },
        Action::ReadFeed,
        Action::Init(signal_at(site, initial, None)),
        action_after_ticks(started, 0),
    ]);
}

proof fn lemma_ticks<V>(
    started: Machine<V>,
    limit: u16,
    addresses: Addresses,
    initial: V,
    values: Seq<V>,
    count: nat,
)
    requires
        started.stage is StartingNode,
        started.fee <= limit,
        values.len() == started.steps,
        count <= values.len(),
    ensures
        replay(
            started,
            opening_events(limit, addresses, initial) + tick_events(values, count),
        ) == ({
            let site = addresses.site(started.fee, started.tick_spacing);
            (
                state_after_ticks(started, site, count),
                seq![
                    Action::QueryFeeLimit,
                    Action::Deploy { fee: started.fee, tick_spacing: started.tick_spacing },
                    Action::ReadFeed,
                    Action::Init(signal_at(site, initial, None)),
                ] + tick_actions(site, values, count).push(action_after_ticks(started, count)),
            )
        }),
    decreases count,
{
    let site = addresses.site(started.fee, started.tick_spacing);
    let opening = opening_events(limit, addresses, initial);
    let head = seq![
        Action::QueryFeeLimit,
        Action::Deploy { fee: started.fee, tick_spacing: started.tick_spacing },
        Action::ReadFeed,
        Action::Init(signal_at(site, initial, None)),
    ];
    if count == 0 {
        lemma_opening(started, limit, addresses, initial);
        assert(opening + tick_events(values, 0) =~= opening);
        assert(head + tick_actions(site, values, 0).push(action_after_ticks(started, 0)) =~= seq![
            Action::QueryFeeLimit,
            Action::Deploy { fee: started.fee, tick_spacing: started.tick_spacing },
            Action::ReadFeed,
            Action::Init(signal_at(site, initial, None)),
            action_after_ticks(started, 0),
        ]);
    } else {
        let done = (count - 1) as nat;
        lemma_ticks(started, limit, addresses, initial, values, done);
        let value = values[count - 1];
        let tick = done as usize;
        let e0 = opening + tick_events(values, done);
        let e1 = e0.push(Event::Value(value));
        let e2 = e1.push(Event::Done);
        let e3 = e2.push(Event::Done);
        let e4 = e3.push(Event::Done);
        lemma_replay_push(started, e0, Event::Value(value));
        lemma_replay_push(started, e1, Event::Done);
        lemma_replay_push(started, e2, Event::Done);
        lemma_replay_push(started, e3, Event::Done);
        assert(e4 =~= opening + tick_events(values, count));
        assert(replay(started, e4).1 =~= head + tick_actions(site, values, count).push(
            action_after_ticks(started, count),
        ));
    }
}

/// A run in which everything succeeds asks for exactly the actions of
/// [`successful_actions`] and ends completed: on a built machine whose fee is
/// within the chain's limit, for every number of ticks, zero included, the
/// node is started, the limit queried and the pool deployed; `init` is called
/// once, with no step; then, for each tick in ascending order, the feed is
/// advanced and `process`, `arbitrage` and `log` are called once each, in
/// this order, with that tick's step and value; after the last `log` the
/// inspector saves, once; the node is torn down; and the run finishes with
/// success.
pub proof fn law_successful_run<V>(
    machine: Machine<V>,
    save: Option<SaveData>,
    limit: u16,
    addresses: Addresses,
    initial: V,
    values: Seq<V>,
)
    requires
        machine.stage is Built,
        machine.fee <= limit,
        values.len() <= usize::MAX,
    ensures
        run(
            machine,
            values.len() as usize,
            save,
            successful_events(limit, addresses, initial, values),
        ) == (
            Machine {
                steps: values.len() as usize,
                save: None,
                stage: Stage::Completed,
                ..machine
            },
            successful_actions(machine.fee, machine.tick_spacing, save, addresses, initial, values),
        ),
{
    let steps = values.len() as usize;
    let started = machine.begin(steps, save).0;
    let site = addresses.site(machine.fee, machine.tick_spacing);
    lemma_ticks(started, limit, addresses, initial, values, values.len());
    let e0 = opening_events(limit, addresses, initial) + tick_events(values, values.len());
    let e1 = e0.push(Event::Done);
    let e2 = e1.push(Event::Done);
    lemma_replay_push(started, e0, Event::Done);
    lemma_replay_push(started, e1, Event::Done);
    assert(e2 =~= successful_events(limit, addresses, initial, values));
    assert(seq![Action::<V>::StartNode] + replay(started, e2).1 =~= successful_actions(
        machine.fee,
        machine.tick_spacing,
        save,
        addresses,
        initial,
        values,
    ));
}

/// The result that a finished machine reports, if it has finished.
pub open spec fn verdict<V>(machine: Machine<V>) -> Option<Result<(), ArenaError>> {
    match machine.stage {
        Stage::Completed => Some(Ok(())),
        Stage::Failed { error } => Some(Err(error)),
        _ => None,
    }
}

/// A finished machine stays as it is and answers every report with its result.
pub proof fn law_finished_stays_finished<V>(machine: Machine<V>, events: Seq<Event<V>>)
    requires
        verdict(machine) is Some,
    ensures
        replay(machine, events).0 == machine,
        replay(machine, events).1.len() == events.len(),
        forall|i: int|
            0 <= i < events.len() ==> #[trigger] replay(machine, events).1[i] == Action::<
                V,
            >::Finish(verdict(machine)->0),
    decreases events.len(),
{
    if events.len() > 0 {
        law_finished_stays_finished(machine, events.drop_last());
    }
}

/// The replay of `events` after a first report: the first transition, then
/// the rest from the state it leads to.
pub proof fn lemma_replay_first<V>(machine: Machine<V>, events: Seq<Event<V>>)
    requires
        events.len() > 0,
    ensures
        replay(machine, events) == ({
            let (after, action) = machine.next(events[0]);
            let (end, actions) = replay(after, events.skip(1));
            (end, seq![action] + actions)
        }),
    decreases events.len(),
{
    let (after, action) = machine.next(events[0]);
    if events.len() == 1 {
        assert(events.drop_last() =~= Seq::<Event<V>>::empty());
        assert(events.skip(1) =~= Seq::<Event<V>>::empty());
        assert(replay(machine, Seq::<Event<V>>::empty()).1 =~= Seq::<Action<V>>::empty());
        assert(replay(after, Seq::<Event<V>>::empty()).1 =~= Seq::<Action<V>>::empty());
        assert(replay(machine, events).1 =~= seq![action] + replay(after, events.skip(1)).1);
    } else {
        lemma_replay_first(machine, events.drop_last());
        assert(events.drop_last().skip(1) =~= events.skip(1).drop_last());
        assert(events.drop_last()[0] == events[0]);
        let (end, actions) = replay(after, events.skip(1).drop_last());
        let (last, action_last) = end.next(events.last());
        assert(events.skip(1).last() == events.last());
        assert(replay(machine, events).1 =~= seq![action] + replay(after, events.skip(1)).1);
    }
}

/// If the node does not start, the run fails with
/// [`ArenaError::NodeStartupError`] at once: whatever is reported afterwards,
/// the machine asks for nothing but the start of the node, and so neither
/// for a deployment nor for a call of a collaborator.
pub proof fn law_node_startup_failure<V>(
    machine: Machine<V>,
    steps: usize,
    save: Option<SaveData>,
    events: Seq<Event<V>>,
)
    requires
        machine.stage is Built,
        events.len() > 0,
        !(events[0] is Done),
    ensures
        run(machine, steps, save, events).0.stage == (Stage::<V>::Failed {
            error: ArenaError::NodeStartupError,
        }),
        run(machine, steps, save, events).1.len() == events.len() + 1,
        run(machine, steps, save, events).1[0] == Action::<V>::StartNode,
        forall|i: int|
            1 <= i <= events.len() ==> #[trigger] run(machine, steps, save, events).1[i]
                == Action::<V>::Finish(Err(ArenaError::NodeStartupError)),
{
    let started = machine.begin(steps, save).0;
    let failed = started.next(events[0]).0;
    lemma_replay_first(started, events);
    law_finished_stays_finished(failed, events.skip(1));
    let rest = replay(failed, events.skip(1)).1;
    assert forall|i: int| 1 <= i <= events.len() implies #[trigger] run(
        machine,
        steps,
        save,
        events,
    ).1[i] == Action::<V>::Finish(Err(ArenaError::NodeStartupError)) by {
        if i >= 2 {
            assert(rest[i - 2] == Action::<V>::Finish(Err(ArenaError::NodeStartupError)));
        }
    }
}

/// If the fee exceeds the limit that the chain reports, the run fails with a
/// [`ArenaError::ConfigError`] that names the fee, after the node is torn
/// down, and no pool is deployed: whatever is reported afterwards, the
/// machine asks for the node, the limit, the teardown, and then only reports
/// the failure.
pub proof fn law_fee_above_limit<V>(
    machine: Machine<V>,
    steps: usize,
    save: Option<SaveData>,
    limit: u16,
    events: Seq<Event<V>>,
)
    requires
        machine.stage is Built,
        machine.fee > limit,
        events.len() >= 3,
        events[0] is Done,
        events[1] == Event::<V>::FeeLimit(limit),
    ensures
        run(machine, steps, save, events).0.stage == (Stage::<V>::Failed {
            error: ArenaError::ConfigError(ConfigField::Fee),
        }),
        run(machine, steps, save, events).1.len() == events.len() + 1,
        run(machine, steps, save, events).1[0] == Action::<V>::StartNode,
        run(machine, steps, save, events).1[1] == Action::<V>::QueryFeeLimit,
        run(machine, steps, save, events).1[2] == Action::<V>::Teardown,
        forall|i: int|
            3 <= i <= events.len() ==> #[trigger] run(machine, steps, save, events).1[i]
                == Action::<V>::Finish(Err(ArenaError::ConfigError(ConfigField::Fee))),
{
    let error = ArenaError::ConfigError(ConfigField::Fee);
    let m0 = machine.begin(steps, save).0;
    let m1 = m0.next(events[0]).0;
    let m2 = m1.next(events[1]).0;
    let m3 = m2.next(events[2]).0;
    let r1 = events.skip(1);
    let r2 = r1.skip(1);
    let r3 = r2.skip(1);
    lemma_replay_first(m0, events);
    lemma_replay_first(m1, r1);
    lemma_replay_first(m2, r2);
    law_finished_stays_finished(m3, r3);
    let rest = replay(m3, r3).1;
    assert forall|i: int| 3 <= i <= events.len() implies #[trigger] run(
        machine,
        steps,
        save,
        events,
    ).1[i] == Action::<V>::Finish(Err(error)) by {
        if i >= 4 {
            assert(rest[i - 4] == Action::<V>::Finish(Err(error)));
        }
    }
}

/// The number of `log` calls among `actions`.
pub open spec fn logs<V>(actions: Seq<Action<V>>) -> nat
    decreases actions.len(),
{
    if actions.len() == 0 {
        0
    } else {
        logs(actions.drop_last()) + if actions.last() is Log {
            1nat
        } else {
            0nat
        }
    }
}

/// The number of `save` calls among `actions`.
pub open spec fn saves<V>(actions: Seq<Action<V>>) -> nat
    decreases actions.len(),
{
    if actions.len() == 0 {
        0
    } else {
        saves(actions.drop_last()) + if actions.last() is Save {
            1nat
        } else {
            0nat
        }
    }
}

/// Whether `site` is what the run deployed: the manager and the pool of the
/// signal that `init` was called with, which is the fifth action of a run
/// that gets that far.
pub open spec fn deployed_at<V>(before: Seq<Action<V>>, site: Deployment) -> bool {
    &&& before.len() > 4
    &&& before[4] is Init
    &&& before[4]->Init_0.manager == site.manager
    &&& before[4]->Init_0.pool == site.pool
}

/// Whether `signal` names the manager and the pool that the run deployed.
pub open spec fn of_the_run<V>(before: Seq<Action<V>>, signal: Signal<V>) -> bool {
    deployed_at(before, Deployment { manager: signal.manager, pool: signal.pool })
}

/// Whether a run of `steps` ticks may ask for `action` after it has asked
/// for the actions `before`.
///
/// - The run opens with the start of the node, the query of the fee limit,
///   the deployment and the reading of the feed, in this order.
/// - `init` comes fifth; its signal has no step, and its pool has the fee
///   and the tick spacing that the deployment was asked for.
/// - The feed is advanced after `init` or after a `log`, while fewer than
///   `steps` ticks have been logged.
/// - `process` follows an advance of the feed; its step is the number of
///   ticks logged so far, which is below `steps`; its signal names the
///   manager and the pool of the run.
/// - `arbitrage` follows the `process` of the same signal.
/// - `log` follows `arbitrage` and logs the value of its signal.
/// - `save` comes once, when `steps` ticks have been logged, directly after
///   the last `log` (after `init`, if there is no tick).
/// - The node is torn down once it has started, and at most once.
/// - The run finishes only after the node is torn down, unless the node
///   never started.
pub open spec fn admissible<V>(before: Seq<Action<V>>, action: Action<V>, steps: usize) -> bool {
    match action {
        Action::Idle => false,
        Action::StartNode => before.len() == 0,
        Action::QueryFeeLimit => before.len() == 1,
        Action::Deploy { .. } => before.len() == 2,
        Action::ReadFeed => before.len() == 3,
        Action::Init(signal) => {
            &&& before.len() == 4
            &&& before[2] == Action::<V>::Deploy {
                fee: signal.pool.fee,
                tick_spacing: signal.pool.tick_spacing,
            }
            &&& signal.step is None
        },
        Action::AdvanceFeed => {
            &&& before.len() > 0 && (before.last() is Init || before.last() is Log)
            &&& logs(before) < steps
        },
        Action::Process(signal) => {
            &&& before.len() > 0 && before.last() is AdvanceFeed
            &&& logs(before) < steps
            &&& signal.step == Some(logs(before) as usize)
            &&& of_the_run(before, signal)
        },
        Action::Arbitrage(signal) => before.len() > 0 && before.last() == Action::Process(signal),
        Action::Log(value) => {
            &&& before.len() > 0
            &&& before.last() is Arbitrage
            &&& before.last()->Arbitrage_0.current_value == value
        },
        Action::Save(_) => {
            &&& before.len() > 0 && (before.last() is Log || before.last() is Init)
            &&& logs(before) == steps
            &&& saves(before) == 0
        },
        Action::Teardown => {
            &&& before.len() >= 2
            &&& !(before.last() is Teardown) && !(before.last() is Finish)
        },
        Action::Finish(_) => {
            &&& before.len() > 0
            &&& before.last() is Teardown || before.last() is Finish || before.len() == 1
        },
    }
}

/// Whether each of `actions` is admissible after those before it.
pub open spec fn in_order<V>(actions: Seq<Action<V>>, steps: usize) -> bool
    decreases actions.len(),
{
    actions.len() == 0 || (in_order(actions.drop_last(), steps) && admissible(
        actions.drop_last(),
        actions.last(),
        steps,
    ))
}

/// What holds between the state of a run and the actions it has asked for.
spec fn consistent<V>(machine: Machine<V>, actions: Seq<Action<V>>, steps: usize) -> bool {
    &&& actions.len() > 0
    &&& actions[0] is StartNode
    &&& machine.steps == steps
    &&& in_order(actions, steps)
    &&& match machine.stage {
        Stage::Built => false,
        Stage::StartingNode => actions.len() == 1 && logs(actions) == 0 && saves(actions) == 0,
        Stage::QueryingFeeLimit => {
            &&& actions.len() == 2 && logs(actions) == 0 && saves(actions) == 0
            &&& actions.last() is QueryFeeLimit
        },
        Stage::Deploying => {
            &&& actions.len() == 3 && logs(actions) == 0 && saves(actions) == 0
            &&& actions[2] == Action::<V>::Deploy {
                fee: machine.fee,
                tick_spacing: machine.tick_spacing,
            }
        },
        Stage::ReadingFeed { site } => {
            &&& actions.len() == 4 && logs(actions) == 0 && saves(actions) == 0
            &&& actions.last() is ReadFeed
            &&& actions[2] == Action::<V>::Deploy {
                fee: site.pool.fee,
                tick_spacing: site.pool.tick_spacing,
            }
        },
        Stage::Initializing { site } => {
            &&& actions.len() == 5 && logs(actions) == 0 && saves(actions) == 0
            &&& actions.last() is Init
            &&& deployed_at(actions, site)
        },
        Stage::Advancing { site, tick } => {
            &&& actions.last() is AdvanceFeed
            &&& logs(actions) == tick
            &&& tick < steps
            &&& saves(actions) == 0
            &&& deployed_at(actions, site)
        },
        Stage::Processing { site, tick, value } => {
            &&& actions.last() == Action::Process(signal_at(site, value, Some(tick)))
            &&& logs(actions) == tick
            &&& tick < steps
            &&& saves(actions) == 0
            &&& deployed_at(actions, site)
        },
        Stage::Arbitraging { site, tick, value } => {
            &&& actions.last() == Action::Arbitrage(signal_at(site, value, Some(tick)))
            &&& logs(actions) == tick
            &&& tick < steps
            &&& saves(actions) == 0
            &&& deployed_at(actions, site)
        },
        Stage::Logging { site, tick } => {
            &&& actions.last() is Log
            &&& logs(actions) == tick + 1
            &&& tick < steps
            &&& saves(actions) == 0
            &&& deployed_at(actions, site)
        },
        Stage::Saving => actions.len() >= 2 && actions.last() is Save,
        Stage::TearingDown { .. } => actions.len() >= 2 && actions.last() is Teardown,
        Stage::Completed => actions.last() is Finish,
        Stage::Failed { .. } => actions.last() is Finish,
    }
}

proof fn lemma_push_counts<V>(actions: Seq<Action<V>>, action: Action<V>, steps: usize)
    ensures
        logs(actions.push(action)) == logs(actions) + if action is Log {
            1nat
        } else {
            0nat
        },
        saves(actions.push(action)) == saves(actions) + if action is Save {
            1nat
        } else {
            0nat
        },
        in_order(actions.push(action), steps) == (in_order(actions, steps) && admissible(
            actions,
            action,
            steps,
        )),
{
    assert(actions.push(action).drop_last() =~= actions);
}

proof fn lemma_consistent_step<V>(
    machine: Machine<V>,
    actions: Seq<Action<V>>,
    steps: usize,
    event: Event<V>,
)
    requires
        consistent(machine, actions, steps),
    ensures
        consistent(machine.next(event).0, actions.push(machine.next(event).1), steps),
{
    let (after, action) = machine.next(event);
    lemma_push_counts(actions, action, steps);
    let longer = actions.push(action);
    assert(longer.last() == action);
    assert(longer[0] == actions[0]);
    if actions.len() > 4 {
        assert(longer[4] == actions[4]);
    }
    if actions.len() > 2 {
        assert(longer[2] == actions[2]);
    }
}

proof fn lemma_consistent_replay<V>(
    machine: Machine<V>,
    actions: Seq<Action<V>>,
    steps: usize,
    events: Seq<Event<V>>,
)
    requires
        consistent(machine, actions, steps),
    ensures
        consistent(replay(machine, events).0, actions + replay(machine, events).1, steps),
    decreases events.len(),
{
    if events.len() == 0 {
        assert(actions + replay(machine, events).1 =~= actions);
    } else {
        lemma_consistent_replay(machine, actions, steps, events.drop_last());
        let (before, asked) = replay(machine, events.drop_last());
        lemma_consistent_step(before, actions + asked, steps, events.last());
        assert((actions + asked).push(before.next(events.last()).1) =~= actions + replay(
            machine,
            events,
        ).1);
    }
}

/// Whatever is reported to it, a run asks for its actions in order: each
/// action of a run begun on a built machine is [`admissible`] after the
/// actions before it. In particular `process`, `arbitrage` and `log` are
/// called in this order within a tick, the steps of the signals count up
/// from zero and stay below the number of ticks, every signal names the one
/// pool of the run, `save` is called at most once and never before the last
/// tick is logged, and a run whose node has started finishes only after the
/// node is torn down.
pub proof fn law_actions_in_order<V>(
    machine: Machine<V>,
    steps: usize,
    save: Option<SaveData>,
    events: Seq<Event<V>>,
)
    requires
        machine.stage is Built,
    ensures
        in_order(run(machine, steps, save, events).1, steps),
{
    let started = machine.begin(steps, save).0;
    let first = seq![Action::<V>::StartNode];
    assert(first.drop_last() =~= Seq::<Action<V>>::empty());
    assert(in_order(first.drop_last(), steps));
    assert(in_order(first, steps));
    assert(logs(first.drop_last()) == 0 && saves(first.drop_last()) == 0);
    assert(logs(first) == 0 && saves(first) == 0);
    lemma_consistent_replay(started, first, steps, events);
}

/// A successful run of no ticks deploys the pool, calls `init` once, calls
/// none of `process`, `arbitrage` and `log`, and still has the inspector
/// save, once, before the node is torn down.
pub proof fn law_run_without_ticks<V>(
    machine: Machine<V>,
    save: Option<SaveData>,
    limit: u16,
    addresses: Addresses,
    initial: V,
)
    requires
        machine.stage is Built,
        machine.fee <= limit,
    ensures
        run(
            machine,
            0,
            save,
            seq![
                Event::Done,
                Event::FeeLimit(limit),
                Event::Deployed(addresses),
                Event::Value(initial),
                Event::Done,
                Event::Done,
                Event::Done,
            ],
        ).1 == seq![
            Action::StartNode,
            Action::QueryFeeLimit,
            Action::Deploy { fee: machine.fee, tick_spacing: machine.tick_spacing },
            Action::ReadFeed,
            Action::Init(
                signal_at(addresses.site(machine.fee, machine.tick_spacing), initial, None),
            ),
            Action::Save(save),
            Action::Teardown,
            Action::Finish(Ok(())),
        ],
{
    let values = Seq::<V>::empty();
    law_successful_run(machine, save, limit, addresses, initial, values);
    assert(successful_events(limit, addresses, initial, values) =~= seq![
        Event::Done,
        Event::FeeLimit(limit),
        Event::Deployed(addresses),
        Event::Value(initial),
        Event::Done,
        Event::Done,
        Event::Done,
    ]);
    assert(successful_actions(
        machine.fee,
        machine.tick_spacing,
        save,
        addresses,
        initial,
        values,
    ) =~= seq![
        Action::StartNode,
        Action::QueryFeeLimit,
        Action::Deploy { fee: machine.fee, tick_spacing: machine.tick_spacing },
        Action::ReadFeed,
        Action::Init(signal_at(addresses.site(machine.fee, machine.tick_spacing), initial, None)),
        Action::Save(save),
        Action::Teardown,
        Action::Finish(Ok(())),
    ]);
}

/// Actions that are in order hold at most one `save`.
pub proof fn law_save_at_most_once<V>(actions: Seq<Action<V>>, steps: usize)
    requires
        in_order(actions, steps),
    ensures
        saves(actions) <= 1,
    decreases actions.len(),
{
    if actions.len() > 0 {
        law_save_at_most_once(actions.drop_last(), steps);
    }
}

} // verus!
