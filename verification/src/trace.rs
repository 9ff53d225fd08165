//! Runs of the coordinator over whole sequences of events, and what holds of
//! every run.
//!
//! [`run`] and [`emitted`] iterate [`transition`], the function that
//! [`Coordinator::step`] computes. The theorems below are therefore
//! statements about every driver, whatever the events and whatever the order
//! in which they reach the coordinator.

use crate::lifecycle::{
    transition, Action, ActionKind, Coordinator, Event, JoinResult, Outcome, Phase, ShutdownCause,
    State,
};
use vstd::prelude::*;

verus! {

/// The state reached from `state` after `events`, taken in order.
pub open spec fn run(state: State, events: Seq<Event>) -> State
    decreases events.len(),
{
    if events.len() == 0 {
        state
    } else {
        transition(run(state, events.drop_last()), events.last()).0
    }
}

/// The actions answered to `events`, one for each event, starting in `state`.
pub open spec fn emitted(state: State, events: Seq<Event>) -> Seq<Action>
    decreases events.len(),
{
    if events.len() == 0 {
        Seq::empty()
    } else {
        emitted(state, events.drop_last()).push(
            transition(run(state, events.drop_last()), events.last()).1,
        )
    }
}

/// The number of actions of kind `kind` in `actions`.
pub open spec fn count(actions: Seq<Action>, kind: ActionKind) -> nat
    decreases actions.len(),
{
    if actions.len() == 0 {
        0
    } else {
        count(actions.drop_last(), kind) + if actions.last().kind_of() == Some(kind) {
            1nat
        } else {
            0nat
        }
    }
}

/// `n` termination signals in a row.
pub open spec fn signals(n: nat) -> Seq<Event> {
    Seq::new(n, |i: int| Event::SignalDelivered)
}

/// How far a state is along the lifecycle.
pub open spec fn progress(state: State) -> nat {
    match state {
        State::Idle => 0,
        State::Launching => 1,
        State::Arming => 2,
        State::Running => 3,
        State::ShuttingDown => 4,
        State::Finished(_) => 5,
    }
}

/// The place of an action in the order in which a lifecycle asks for them:
/// the progress of the state that the action leads into. `Nothing` has no
/// place and is given 0.
pub open spec fn order(action: Action) -> nat {
    match action {
        Action::Nothing => 0,
        Action::StartServer => 1,
        Action::InstallListener => 2,
        Action::Join => 3,
        Action::RequestShutdown => 4,
        Action::Exit(_) => 5,
    }
}

/// Feeds `events` to `coordinator` in order and collects the answers.
pub fn replay(coordinator: &mut Coordinator, events: Vec<Event>) -> (actions: Vec<Action>)
    ensures
        final(coordinator)@ == run(old(coordinator)@, events@),
        actions@ == emitted(old(coordinator)@, events@),
{
    let ghost start = coordinator@;
    let ghost all = events@;
    let mut actions: Vec<Action> = Vec::new();
    for event in iter: events
        invariant
            iter.seq() == all,
            coordinator@ == run(start, all.take(iter.index())),
            actions@ == emitted(start, all.take(iter.index())),
    {
        proof {
            let at = iter.index();
            assert(all.take(at + 1) == all.take(at).push(all[at]));
            lemma_run_push(start, all.take(at), all[at]);
        }
        let action = coordinator.step(event);
        actions.push(action);
    }
    proof {
        assert(all.take(all.len() as int) == all);
    }
    actions
}

/// One step either asks for nothing and changes nothing, or moves the state
/// forward to exactly the place of the action that it asks for.
pub proof fn lemma_step_advances(state: State, event: Event)
    ensures
        ({
            let (next, action) = transition(state, event);
            if action is Nothing {
                next == state
            } else {
                progress(state) < order(action) == progress(next)
            }
        }),
{
}

/// One more event extends a run by one step.
pub proof fn lemma_run_push(state: State, events: Seq<Event>, event: Event)
    ensures
        run(state, events.push(event)) == transition(run(state, events), event).0,
        emitted(state, events.push(event)) == emitted(state, events).push(
            transition(run(state, events), event).1,
        ),
{
    assert(events.push(event).drop_last() == events);
}

/// A run over `first` followed by `second` is the run over `second` from
/// where the run over `first` ended.
pub proof fn lemma_run_concat(state: State, first: Seq<Event>, second: Seq<Event>)
    ensures
        run(state, first + second) == run(run(state, first), second),
        emitted(state, first + second) == emitted(state, first) + emitted(
            run(state, first),
            second,
        ),
    decreases second.len(),
{
    if second.len() == 0 {
        assert(first + second == first);
        assert(emitted(state, first) + Seq::<Action>::empty() == emitted(state, first));
    } else {
        let shorter = second.drop_last();
        lemma_run_concat(state, first, shorter);
        assert((first + second).drop_last() == first + shorter);
        assert((first + second).last() == second.last());
        assert(emitted(state, first + second) == emitted(state, first) + emitted(
            run(state, first),
            second,
        ));
    }
}

/// A run answers every event, never moves backwards, and every action that
/// it asks for lies between where it began and where it ended.
pub proof fn lemma_run_bounds(state: State, events: Seq<Event>)
    ensures
        emitted(state, events).len() == events.len(),
        progress(state) <= progress(run(state, events)),
        forall|i: int|
            0 <= i < events.len() && !(#[trigger] emitted(state, events)[i] is Nothing)
                ==> progress(state) < order(emitted(state, events)[i]) <= progress(
                run(state, events),
            ),
    decreases events.len(),
{
    if events.len() > 0 {
        let prefix = events.drop_last();
        lemma_run_bounds(state, prefix);
        lemma_step_advances(run(state, prefix), events.last());
    }
}

/// The action answered to the event at `at` is the one that the transition
/// function gives in the state reached by the events before it.
pub proof fn lemma_emitted_at(state: State, events: Seq<Event>, at: int)
    requires
        0 <= at < events.len(),
    ensures
        emitted(state, events).len() == events.len(),
        emitted(state, events)[at] == transition(run(state, events.take(at)), events[at]).1,
        run(state, events.take(at + 1)) == transition(
            run(state, events.take(at)),
            events[at],
        ).0,
    decreases events.len(),
{
    let prefix = events.drop_last();
    lemma_run_bounds(state, events);
    lemma_run_bounds(state, prefix);
    if at == events.len() - 1 {
        assert(events.take(at) == prefix);
        assert(events.take(at + 1) == events);
    } else {
        lemma_emitted_at(state, prefix, at);
        assert(prefix.take(at) == events.take(at));
        assert(prefix.take(at + 1) == events.take(at + 1));
    }
}

/// Where `count` finds an action of a kind, there is one.
pub proof fn lemma_count_witness(actions: Seq<Action>, kind: ActionKind) -> (at: int)
    requires
        count(actions, kind) >= 1,
    ensures
        0 <= at < actions.len(),
        actions[at].kind_of() == Some(kind),
    decreases actions.len(),
{
    if actions.last().kind_of() == Some(kind) {
        actions.len() - 1
    } else {
        lemma_count_witness(actions.drop_last(), kind)
    }
}

/// An action of a kind is counted at least once.
pub proof fn lemma_count_at_least_one(actions: Seq<Action>, kind: ActionKind, at: int)
    requires
        0 <= at < actions.len(),
        actions[at].kind_of() == Some(kind),
    ensures
        count(actions, kind) >= 1,
    decreases actions.len(),
{
    if at < actions.len() - 1 {
        lemma_count_at_least_one(actions.drop_last(), kind, at);
    }
}

/// A lifecycle that began in `Idle` and has not ended has asked for every
/// action up to the place of its state.
pub proof fn lemma_steps_taken(events: Seq<Event>, place: nat) -> (at: int)
    requires
        !run(State::Idle, events).is_terminal(),
        1 <= place <= progress(run(State::Idle, events)),
    ensures
        0 <= at < events.len(),
        order(emitted(State::Idle, events)[at]) == place,
    decreases events.len(),
{
    let prefix = events.drop_last();
    lemma_run_bounds(State::Idle, prefix);
    lemma_step_advances(run(State::Idle, prefix), events.last());
    if place <= progress(run(State::Idle, prefix)) {
        lemma_steps_taken(prefix, place)
    } else {
        events.len() - 1
    }
}

/// The actions answered to a shorter run are the first of those answered to
/// the whole run.
pub proof fn lemma_emitted_prefix(state: State, events: Seq<Event>, upto: int, at: int)
    requires
        0 <= at < upto <= events.len(),
    ensures
        emitted(state, events.take(upto)).len() == upto,
        emitted(state, events.take(upto))[at] == emitted(state, events)[at],
{
    lemma_emitted_at(state, events, at);
    lemma_emitted_at(state, events.take(upto), at);
    assert(events.take(upto).take(at) == events.take(at));
}

/// No action of a kind is counted where none of the kind stands.
pub proof fn lemma_count_none(actions: Seq<Action>, kind: ActionKind)
    requires
        forall|i: int| 0 <= i < actions.len() ==> (#[trigger] actions[i]).kind_of() != Some(kind),
    ensures
        count(actions, kind) == 0,
    decreases actions.len(),
{
    if actions.len() > 0 {
        let shorter = actions.drop_last();
        assert forall|i: int| 0 <= i < shorter.len() implies (#[trigger] shorter[i]).kind_of()
            != Some(kind) by {
            assert(shorter[i] == actions[i]);
        }
        lemma_count_none(shorter, kind);
    }
}

/// A run that has ended took its last step at some event: before it the run
/// had not ended, with it the run ended in the state it is in, and the
/// answer to it was the exit.
pub proof fn lemma_last_step(state: State, events: Seq<Event>) -> (at: int)
    requires
        !state.is_terminal(),
        run(state, events).is_terminal(),
    ensures
        0 <= at < events.len(),
        !run(state, events.take(at)).is_terminal(),
        transition(run(state, events.take(at)), events[at]) == (
            run(state, events),
            Action::Exit(run(state, events)->Finished_0),
        ),
        emitted(state, events)[at] == Action::Exit(run(state, events)->Finished_0),
    decreases events.len(),
{
    let prefix = events.drop_last();
    if run(state, prefix).is_terminal() {
        let at = lemma_last_step(state, prefix);
        assert(prefix.take(at) == events.take(at));
        lemma_emitted_at(state, events, at);
        at
    } else {
        let at = events.len() - 1;
        assert(events.take(at) == prefix);
        lemma_emitted_at(state, events, at);
        at
    }
}

/// The actions that a run asks for come in strictly rising order: a later
/// action never repeats or precedes an earlier one.
pub proof fn theorem_actions_in_order(state: State, events: Seq<Event>, i: int, j: int)
    requires
        0 <= i < j < events.len(),
        !(emitted(state, events)[i] is Nothing),
        !(emitted(state, events)[j] is Nothing),
    ensures
        order(emitted(state, events)[i]) < order(emitted(state, events)[j]),
    decreases events.len(),
{
    let prefix = events.drop_last();
    lemma_run_bounds(state, prefix);
    if j < events.len() - 1 {
        theorem_actions_in_order(state, prefix, i, j);
    } else {
        lemma_step_advances(run(state, prefix), events.last());
        assert(emitted(state, events)[i] == emitted(state, prefix)[i]);
    }
}

/// Every kind of action is asked for at most once in a run, whatever the
/// events and wherever the run begins: the server is started at most once,
/// at most one listener is installed, the join is called at most once,
/// shutdown is requested at most once, and the run exits at most once.
pub proof fn theorem_each_action_at_most_once(state: State, events: Seq<Event>, kind: ActionKind)
    ensures
        count(emitted(state, events), kind) <= 1,
    decreases events.len(),
{
    if events.len() > 0 {
        let prefix = events.drop_last();
        theorem_each_action_at_most_once(state, prefix, kind);
        assert(emitted(state, events).drop_last() == emitted(state, prefix));
        if count(emitted(state, prefix), kind) >= 1 {
            let at = lemma_count_witness(emitted(state, prefix), kind);
            lemma_run_bounds(state, prefix);
            lemma_step_advances(run(state, prefix), events.last());
        }
    }
}

/// In a lifecycle that begins in `Idle`, no step is skipped. A listener is
/// installed only after the server was asked to start; the join is called
/// only after the listener was asked for, so that no signal can arrive
/// before anything listens; and shutdown is requested only after the join
/// began.
pub proof fn theorem_no_step_is_skipped(events: Seq<Event>, at: int) -> (before: int)
    requires
        0 <= at < events.len(),
        emitted(State::Idle, events)[at] is InstallListener || emitted(State::Idle, events)[at]
            is Join || emitted(State::Idle, events)[at] is RequestShutdown,
    ensures
        0 <= before < at,
        emitted(State::Idle, events)[at] is InstallListener ==> emitted(
            State::Idle,
            events,
        )[before] is StartServer,
        emitted(State::Idle, events)[at] is Join ==> emitted(State::Idle, events)[before]
            is InstallListener,
        emitted(State::Idle, events)[at] is RequestShutdown ==> emitted(
            State::Idle,
            events,
        )[before] is Join,
    decreases events.len(),
{
    let prefix = events.drop_last();
    lemma_run_bounds(State::Idle, prefix);
    if at < events.len() - 1 {
        theorem_no_step_is_skipped(prefix, at)
    } else {
        lemma_step_advances(run(State::Idle, prefix), events.last());
        let place = (order(emitted(State::Idle, events)[at]) - 1) as nat;
        lemma_steps_taken(prefix, place)
    }
}

/// Each action answers the event that calls for it: the server is started
/// on `Begin`, the listener is installed once the server has started, the
/// join begins once the listener is installed, shutdown is requested on a
/// signal, and the run exits on a failure to start or on the return of the
/// join.
pub proof fn theorem_actions_answer_their_events(state: State, events: Seq<Event>, at: int)
    requires
        0 <= at < events.len(),
    ensures
        emitted(state, events)[at] is StartServer ==> events[at] is Begin,
        emitted(state, events)[at] is InstallListener ==> events[at] is ServerStarted,
        emitted(state, events)[at] is Join ==> events[at] is ListenerInstalled,
        emitted(state, events)[at] is RequestShutdown ==> events[at] is SignalDelivered,
        emitted(state, events)[at] is Exit ==> events[at] is StartFailed || events[at]
            is ListenerFailed || events[at] is Joined,
{
    lemma_emitted_at(state, events, at);
}

/// A finished lifecycle stays as it is: every later event, a signal
/// included, is ignored, so the listener is inert.
pub proof fn theorem_finished_is_final(outcome: Outcome, events: Seq<Event>)
    ensures
        run(State::Finished(outcome), events) == State::Finished(outcome),
        emitted(State::Finished(outcome), events).len() == events.len(),
        forall|i: int|
            0 <= i < events.len() ==> #[trigger] emitted(State::Finished(outcome), events)[i]
                == Action::Nothing,
    decreases events.len(),
{
    if events.len() > 0 {
        theorem_finished_is_final(outcome, events.drop_last());
    }
}

/// A lifecycle reaches a terminal state at most once, and reports it exactly
/// when it does: a run that begins before the end asks for `Exit` once if it
/// ends in a terminal state, with the outcome of that state, and never
/// otherwise.
pub proof fn theorem_one_terminal_transition(state: State, events: Seq<Event>)
    requires
        !state.is_terminal(),
    ensures
        count(emitted(state, events), ActionKind::Exit) == if run(state, events).is_terminal() {
            1nat
        } else {
            0nat
        },
        run(state, events) matches State::Finished(outcome) ==> exists|i: int|
            0 <= i < events.len() && #[trigger] emitted(state, events)[i] == Action::Exit(outcome),
    decreases events.len(),
{
    if events.len() > 0 {
        let prefix = events.drop_last();
        theorem_one_terminal_transition(state, prefix);
        lemma_run_bounds(state, events);
        assert(emitted(state, events).drop_last() == emitted(state, prefix));
        if let State::Finished(outcome) = run(state, events) {
            if let State::Finished(earlier) = run(state, prefix) {
                let i = choose|i: int|
                    0 <= i < prefix.len() && #[trigger] emitted(state, prefix)[i] == Action::Exit(
                        earlier,
                    );
                assert(emitted(state, events)[i] == Action::Exit(outcome));
            } else {
                assert(emitted(state, events)[events.len() - 1] == Action::Exit(outcome));
            }
        }
    }
}

/// The return of the join ends the lifecycle in `Stopped`, and its result
/// decides the outcome. A server that completes stops gracefully, with exit
/// code 0, whether a signal asked it to or it stopped by itself: the outcome
/// tells the two apart by its cause. A server that returns an error gives a
/// shutdown error with that error's text, and an execution unit that cannot
/// be joined gives an execution fault: both with exit code 1, and neither is
/// swallowed.
pub proof fn theorem_join_decides_the_outcome(signalled: bool, result: JoinResult)
    ensures
        ({
            let state = if signalled {
                State::ShuttingDown
            } else {
                State::Running
            };
            let cause = if signalled {
                ShutdownCause::Signal
            } else {
                ShutdownCause::ServerExit
            };
            let outcome = Outcome::of_join(cause, result);
            &&& transition(state, Event::Joined(result)) == (
                State::Finished(outcome),
                Action::Exit(outcome),
            )
            &&& outcome.phase() == Phase::Stopped
            &&& outcome.shutdown_cause() == Some(cause)
            &&& result is Completed ==> outcome == Outcome::Stopped(cause) && outcome.exit_status()
                == 0
            &&& result matches JoinResult::ServerError(text) ==> outcome == Outcome::ShutdownError(
                cause,
                text,
            ) && outcome.exit_status() == 1
            &&& result is Fault ==> outcome == Outcome::ExecutionFault(cause)
                && outcome.exit_status() == 1
        }),
{
}

/// A lifecycle that began in `Idle` and ended in `Stopped` took every step
/// exactly once: the server was started once, one listener was installed,
/// the join was called once, and the run exited once. Shutdown was requested
/// once if a signal set it off, and never if the server stopped by itself.
pub proof fn theorem_stopped_lifecycle_took_every_step_once(events: Seq<Event>)
    requires
        run(State::Idle, events).phase() == Phase::Stopped,
    ensures
        count(emitted(State::Idle, events), ActionKind::StartServer) == 1,
        count(emitted(State::Idle, events), ActionKind::InstallListener) == 1,
        count(emitted(State::Idle, events), ActionKind::Join) == 1,
        count(emitted(State::Idle, events), ActionKind::Exit) == 1,
        count(emitted(State::Idle, events), ActionKind::RequestShutdown) == if run(
            State::Idle,
            events,
        )->Finished_0.shutdown_cause() == Some(ShutdownCause::Signal) {
            1nat
        } else {
            0nat
        },
{
    let actions = emitted(State::Idle, events);
    let last = lemma_last_step(State::Idle, events);
    let before = events.take(last);
    lemma_run_bounds(State::Idle, events);
    lemma_run_bounds(State::Idle, before);
    assert(run(State::Idle, before) is Running || run(State::Idle, before) is ShuttingDown);

    let started = lemma_steps_taken(before, 1);
    lemma_emitted_prefix(State::Idle, events, last, started);
    lemma_count_at_least_one(actions, ActionKind::StartServer, started);
    theorem_each_action_at_most_once(State::Idle, events, ActionKind::StartServer);

    let installed = lemma_steps_taken(before, 2);
    lemma_emitted_prefix(State::Idle, events, last, installed);
    lemma_count_at_least_one(actions, ActionKind::InstallListener, installed);
    theorem_each_action_at_most_once(State::Idle, events, ActionKind::InstallListener);

    let joined = lemma_steps_taken(before, 3);
    lemma_emitted_prefix(State::Idle, events, last, joined);
    lemma_count_at_least_one(actions, ActionKind::Join, joined);
    theorem_each_action_at_most_once(State::Idle, events, ActionKind::Join);

    theorem_one_terminal_transition(State::Idle, events);

    if run(State::Idle, before) is ShuttingDown {
        let requested = lemma_steps_taken(before, 4);
        lemma_emitted_prefix(State::Idle, events, last, requested);
        lemma_count_at_least_one(actions, ActionKind::RequestShutdown, requested);
        theorem_each_action_at_most_once(State::Idle, events, ActionKind::RequestShutdown);
    } else {
        assert forall|i: int| 0 <= i < actions.len() implies (#[trigger] actions[i]).kind_of()
            != Some(ActionKind::RequestShutdown) by {
            if i < last {
                lemma_emitted_prefix(State::Idle, events, last, i);
            } else if i > last && !(actions[i] is Nothing) {
                theorem_actions_in_order(State::Idle, events, last, i);
            }
        }
        lemma_count_none(actions, ActionKind::RequestShutdown);
    }
}

/// However often a termination signal is delivered to a running server,
/// shutdown is requested exactly once: by the first signal. Every further
/// signal is ignored, and the join that follows ends the lifecycle in
/// `Stopped`, with the outcome of a shutdown set off by a signal.
pub proof fn theorem_signals_request_shutdown_once(n: nat, result: JoinResult)
    requires
        n >= 1,
    ensures
        run(State::Running, signals(n)) == State::ShuttingDown,
        emitted(State::Running, signals(n)).len() == n,
        emitted(State::Running, signals(n))[0] == Action::RequestShutdown,
        forall|i: int|
            1 <= i < n ==> #[trigger] emitted(State::Running, signals(n))[i] == Action::Nothing,
        count(emitted(State::Running, signals(n)), ActionKind::RequestShutdown) == 1,
        transition(run(State::Running, signals(n)), Event::Joined(result)) == (
            State::Finished(Outcome::of_join(ShutdownCause::Signal, result)),
            Action::Exit(Outcome::of_join(ShutdownCause::Signal, result)),
        ),
        Outcome::of_join(ShutdownCause::Signal, result).phase() == Phase::Stopped,
    decreases n,
{
    let fewer = signals((n - 1) as nat);
    assert(signals(n) == fewer.push(Event::SignalDelivered));
    lemma_run_push(State::Running, fewer, Event::SignalDelivered);
    assert(emitted(State::Running, signals(n)).drop_last() == emitted(State::Running, fewer));
    if n > 1 {
        theorem_signals_request_shutdown_once((n - 1) as nat, result);
    } else {
        assert(count(emitted(State::Running, fewer), ActionKind::RequestShutdown) == 0);
    }
}

/// A signal that reaches a running server makes the whole run request the
/// shutdown exactly once, however many signals the run holds and wherever
/// they stand among its other events.
pub proof fn theorem_signal_while_running_requests_shutdown_once(
    state: State,
    events: Seq<Event>,
    at: int,
)
    requires
        0 <= at < events.len(),
        events[at] is SignalDelivered,
        run(state, events.take(at)) is Running,
    ensures
        emitted(state, events)[at] == Action::RequestShutdown,
        count(emitted(state, events), ActionKind::RequestShutdown) == 1,
{
    lemma_emitted_at(state, events, at);
    lemma_count_at_least_one(emitted(state, events), ActionKind::RequestShutdown, at);
    theorem_each_action_at_most_once(state, events, ActionKind::RequestShutdown);
}

/// When the server starter fails, the coordinator asks for the exit at once,
/// with a startup error and exit code 1. Whatever is reported afterwards, it
/// never asks for a listener to be installed, for the join, or for anything
/// else.
pub proof fn theorem_failed_start_ends_the_run(text: String, rest: Seq<Event>)
    ensures
        ({
            let events = seq![Event::Begin, Event::StartFailed(text)] + rest;
            let outcome = Outcome::StartupError(text);
            &&& run(State::Idle, events) == State::Finished(outcome)
            &&& run(State::Idle, events).phase() == Phase::Failed
            &&& outcome.exit_status() == 1
            &&& emitted(State::Idle, events).len() == events.len()
            &&& emitted(State::Idle, events)[0] == Action::StartServer
            &&& emitted(State::Idle, events)[1] == Action::Exit(outcome)
            &&& forall|i: int|
                2 <= i < events.len() ==> #[trigger] emitted(State::Idle, events)[i]
                    == Action::Nothing
            &&& forall|i: int|
                0 <= i < events.len() ==> !(#[trigger] emitted(State::Idle, events)[i]
                    is InstallListener) && !(emitted(State::Idle, events)[i] is Join)
        }),
{
    let head = seq![Event::Begin, Event::StartFailed(text)];
    let events = head + rest;
    let outcome = Outcome::StartupError(text);
    let begin = Seq::<Event>::empty().push(Event::Begin);
    lemma_run_push(State::Idle, Seq::empty(), Event::Begin);
    lemma_run_push(State::Idle, begin, Event::StartFailed(text));
    assert(head == begin.push(Event::StartFailed(text)));
    assert(emitted(State::Idle, head) == seq![Action::StartServer, Action::Exit(outcome)]);
    lemma_run_concat(State::Idle, head, rest);
    theorem_finished_is_final(outcome, rest);
    assert forall|i: int| 2 <= i < events.len() implies #[trigger] emitted(State::Idle, events)[i]
        == Action::Nothing by {
        assert(emitted(State::Idle, events)[i] == emitted(State::Finished(outcome), rest)[i - 2]);
    }
}

/// A lifecycle that ends in `Failed` never got as far as the join: neither
/// the join nor a shutdown was ever asked for.
pub proof fn theorem_failed_never_joins(events: Seq<Event>, at: int)
    requires
        run(State::Idle, events).phase() == Phase::Failed,
        0 <= at < events.len(),
    ensures
        !(emitted(State::Idle, events)[at] is Join),
        !(emitted(State::Idle, events)[at] is RequestShutdown),
    decreases events.len(),
{
    let prefix = events.drop_last();
    lemma_run_bounds(State::Idle, prefix);
    if run(State::Idle, prefix).phase() == Phase::Failed {
        if at < prefix.len() {
            theorem_failed_never_joins(prefix, at);
        }
    } else {
        // The last event is the one that failed the startup, so the run was
        // still in `Starting` before it.
        assert(progress(run(State::Idle, prefix)) <= 2);
    }
}

} // verus!
