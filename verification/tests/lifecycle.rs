use grid_daemon::lifecycle::{
    Action, ActionKind, Coordinator, Event, JoinResult, Outcome, Phase, ShutdownCause, Stage,
    State,
};

/// What the simulated surroundings of one run answer to the coordinator.
struct World {
    start: Result<(), String>,
    listener: Result<(), String>,
    signals_during_join: u32,
    join: JoinResult,
}

/// A run with a server that starts, a listener that installs, and a join
/// that completes.
fn healthy() -> World {
    World { start: Ok(()), listener: Ok(()), signals_during_join: 0, join: JoinResult::Completed }
}

/// Drives a coordinator through one lifecycle, as a process would, and
/// records what it was asked to do.
fn drive(world: World) -> (Coordinator, Outcome, Vec<&'static str>) {
    let World { start, listener, signals_during_join, join } = world;
    let mut start = Some(start);
    let mut listener = Some(listener);
    let mut join = Some(join);
    let mut performed = Vec::new();
    let mut coordinator = Coordinator::new();
    let mut action = coordinator.step(Event::Begin);
    loop {
        let event = match action {
            Action::StartServer => {
                performed.push("start server");
                match start.take().expect("the server is started once") {
                    Ok(()) => Event::ServerStarted,
                    Err(text) => Event::StartFailed(text),
                }
            }
            Action::InstallListener => {
                performed.push("install listener");
                match listener.take().expect("the listener is installed once") {
                    Ok(()) => Event::ListenerInstalled,
                    Err(text) => Event::ListenerFailed(text),
                }
            }
            Action::Join => {
                performed.push("join");
                for _ in 0..signals_during_join {
                    match coordinator.step(Event::SignalDelivered) {
                        Action::RequestShutdown => performed.push("request shutdown"),
                        Action::Nothing => {}
                        other => panic!("a signal was answered with {:?}", other),
                    }
                }
                Event::Joined(join.take().expect("the join is called once"))
            }
            Action::RequestShutdown => panic!("shutdown is requested on a signal only"),
            Action::Nothing => panic!("the main flow reported an event that did not apply"),
            Action::Exit(outcome) => {
                performed.push("exit");
                return (coordinator, outcome, performed);
            }
        };
        action = coordinator.step(event);
    }
}

#[test]
fn a_new_coordinator_is_idle() {
    let coordinator = Coordinator::new();
    assert_eq!(coordinator.phase(), Phase::Idle);
    assert_eq!(coordinator.state(), &State::Idle);
    assert!(!coordinator.is_terminal());
    assert!(!coordinator.listener_live());
    assert_eq!(coordinator.outcome(), None);
}

#[test]
fn the_lifecycle_walks_through_its_states_in_order() {
    let mut coordinator = Coordinator::new();

    assert_eq!(coordinator.step(Event::Begin), Action::StartServer);
    assert_eq!(coordinator.phase(), Phase::Starting);
    assert_eq!(coordinator.state(), &State::Launching);

    assert_eq!(coordinator.step(Event::ServerStarted), Action::InstallListener);
    assert_eq!(coordinator.phase(), Phase::Starting);
    assert_eq!(coordinator.state(), &State::Arming);
    assert!(!coordinator.listener_live());

    assert_eq!(coordinator.step(Event::ListenerInstalled), Action::Join);
    assert_eq!(coordinator.phase(), Phase::Running);
    assert!(coordinator.listener_live());

    assert_eq!(coordinator.step(Event::SignalDelivered), Action::RequestShutdown);
    assert_eq!(coordinator.phase(), Phase::ShuttingDown);
    assert!(coordinator.listener_live());
    assert!(!coordinator.is_terminal());

    assert_eq!(
        coordinator.step(Event::Joined(JoinResult::Completed)),
        Action::Exit(Outcome::Stopped(ShutdownCause::Signal))
    );
    assert_eq!(coordinator.phase(), Phase::Stopped);
    assert!(coordinator.is_terminal());
    assert!(!coordinator.listener_live());
    assert_eq!(coordinator.outcome(), Some(Outcome::Stopped(ShutdownCause::Signal)));
}

#[test]
fn a_signal_after_running_ends_cleanly_with_exit_code_zero() {
    let (coordinator, outcome, performed) =
        drive(World { signals_during_join: 1, ..healthy() });
    assert_eq!(outcome, Outcome::Stopped(ShutdownCause::Signal));
    assert_eq!(outcome.exit_code(), 0);
    assert!(outcome.is_graceful());
    assert_eq!(outcome.stage(), None);
    assert_eq!(outcome.report(), None);
    assert_eq!(coordinator.phase(), Phase::Stopped);
    assert_eq!(
        performed,
        vec!["start server", "install listener", "join", "request shutdown", "exit"]
    );
}

#[test]
fn a_failed_start_installs_no_listener_and_never_joins() {
    let (coordinator, outcome, performed) =
        drive(World { start: Err("address in use".to_string()), ..healthy() });
    assert_eq!(outcome, Outcome::StartupError("address in use".to_string()));
    assert_eq!(outcome.exit_code(), 1);
    assert!(!outcome.is_graceful());
    assert_eq!(outcome.stage(), Some(Stage::Startup));
    assert_eq!(outcome.cause(), None);
    assert_eq!(coordinator.phase(), Phase::Failed);
    assert!(coordinator.is_terminal());
    assert!(!coordinator.listener_live());
    assert_eq!(performed, vec!["start server", "exit"]);
}

#[test]
fn a_server_that_fails_on_its_own_is_a_shutdown_error() {
    let (coordinator, outcome, performed) = drive(World {
        join: JoinResult::ServerError("worker pool crashed".to_string()),
        ..healthy()
    });
    assert_eq!(
        outcome,
        Outcome::ShutdownError(ShutdownCause::ServerExit, "worker pool crashed".to_string())
    );
    assert_eq!(outcome.exit_code(), 1);
    assert_eq!(outcome.stage(), Some(Stage::Shutdown));
    assert_eq!(outcome.cause(), Some(ShutdownCause::ServerExit));
    assert_eq!(coordinator.phase(), Phase::Stopped);
    assert_eq!(performed, vec!["start server", "install listener", "join", "exit"]);
}

#[test]
fn two_signals_in_a_row_request_shutdown_once_and_exit_once() {
    let (coordinator, outcome, performed) =
        drive(World { signals_during_join: 2, ..healthy() });
    assert_eq!(outcome, Outcome::Stopped(ShutdownCause::Signal));
    assert_eq!(outcome.exit_code(), 0);
    assert_eq!(coordinator.phase(), Phase::Stopped);
    assert_eq!(
        performed,
        vec!["start server", "install listener", "join", "request shutdown", "exit"]
    );
}

#[test]
fn many_signals_request_shutdown_once() {
    for signals in 1..30u32 {
        let (_, outcome, performed) = drive(World { signals_during_join: signals, ..healthy() });
        assert_eq!(outcome, Outcome::Stopped(ShutdownCause::Signal));
        let requests = performed.iter().filter(|what| **what == "request shutdown").count();
        let exits = performed.iter().filter(|what| **what == "exit").count();
        assert_eq!(requests, 1);
        assert_eq!(exits, 1);
    }
}

#[test]
fn a_server_that_stops_on_its_own_is_told_apart_from_a_signal() {
    let (_, on_its_own, _) = drive(healthy());
    let (_, on_signal, _) = drive(World { signals_during_join: 1, ..healthy() });
    assert_eq!(on_its_own, Outcome::Stopped(ShutdownCause::ServerExit));
    assert_eq!(on_signal, Outcome::Stopped(ShutdownCause::Signal));
    assert_ne!(on_its_own, on_signal);
    assert_eq!(on_its_own.exit_code(), 0);
    assert_eq!(on_its_own.cause(), Some(ShutdownCause::ServerExit));
    assert_eq!(on_signal.cause(), Some(ShutdownCause::Signal));
}

#[test]
fn an_error_while_stopping_after_a_signal_is_a_shutdown_error() {
    let (_, outcome, performed) = drive(World {
        signals_during_join: 1,
        join: JoinResult::ServerError("could not drain connections".to_string()),
        ..healthy()
    });
    assert_eq!(
        outcome,
        Outcome::ShutdownError(ShutdownCause::Signal, "could not drain connections".to_string())
    );
    assert_eq!(outcome.exit_code(), 1);
    assert_eq!(
        performed,
        vec!["start server", "install listener", "join", "request shutdown", "exit"]
    );
}

#[test]
fn an_execution_unit_that_cannot_be_joined_is_a_fault() {
    let (coordinator, outcome, _) = drive(World { join: JoinResult::Fault, ..healthy() });
    assert_eq!(outcome, Outcome::ExecutionFault(ShutdownCause::ServerExit));
    assert_eq!(outcome.exit_code(), 1);
    assert!(!outcome.is_graceful());
    assert_eq!(outcome.stage(), Some(Stage::Shutdown));
    assert_eq!(coordinator.phase(), Phase::Stopped);

    let (_, after_signal, _) =
        drive(World { signals_during_join: 3, join: JoinResult::Fault, ..healthy() });
    assert_eq!(after_signal, Outcome::ExecutionFault(ShutdownCause::Signal));
    assert_eq!(after_signal.exit_code(), 1);
}

#[test]
fn a_listener_that_cannot_be_installed_is_a_startup_error() {
    let (coordinator, outcome, performed) =
        drive(World { listener: Err("handler already registered".to_string()), ..healthy() });
    assert_eq!(outcome, Outcome::StartupError("handler already registered".to_string()));
    assert_eq!(outcome.exit_code(), 1);
    assert_eq!(coordinator.phase(), Phase::Failed);
    assert_eq!(performed, vec!["start server", "install listener", "exit"]);
}

#[test]
fn a_signal_before_the_listener_is_installed_is_ignored() {
    let mut coordinator = Coordinator::new();
    assert_eq!(coordinator.step(Event::SignalDelivered), Action::Nothing);
    assert_eq!(coordinator.phase(), Phase::Idle);
    coordinator.step(Event::Begin);
    assert_eq!(coordinator.step(Event::SignalDelivered), Action::Nothing);
    assert_eq!(coordinator.state(), &State::Launching);
    coordinator.step(Event::ServerStarted);
    assert_eq!(coordinator.step(Event::SignalDelivered), Action::Nothing);
    assert_eq!(coordinator.state(), &State::Arming);
}

#[test]
fn a_signal_after_the_end_is_ignored() {
    let (mut stopped, outcome, _) = drive(World { signals_during_join: 1, ..healthy() });
    assert_eq!(stopped.step(Event::SignalDelivered), Action::Nothing);
    assert_eq!(stopped.step(Event::SignalDelivered), Action::Nothing);
    assert_eq!(stopped.outcome(), Some(outcome));

    let (mut failed, outcome, _) = drive(World { start: Err("no".to_string()), ..healthy() });
    assert_eq!(failed.step(Event::SignalDelivered), Action::Nothing);
    assert_eq!(failed.phase(), Phase::Failed);
    assert_eq!(failed.outcome(), Some(outcome));
}

#[test]
fn a_finished_lifecycle_ignores_every_event() {
    let (mut coordinator, outcome, _) = drive(healthy());
    let later = vec![
        Event::Begin,
        Event::ServerStarted,
        Event::StartFailed("late".to_string()),
        Event::ListenerInstalled,
        Event::ListenerFailed("late".to_string()),
        Event::SignalDelivered,
        Event::Joined(JoinResult::Fault),
        Event::Joined(JoinResult::ServerError("late".to_string())),
    ];
    for event in later {
        assert!(!coordinator.accepts(&event));
        assert_eq!(coordinator.step(event), Action::Nothing);
        assert_eq!(coordinator.phase(), Phase::Stopped);
        assert_eq!(coordinator.outcome(), Some(outcome.clone()));
    }
}

#[test]
fn events_out_of_turn_change_nothing() {
    let mut coordinator = Coordinator::new();
    assert_eq!(coordinator.step(Event::Joined(JoinResult::Completed)), Action::Nothing);
    assert_eq!(coordinator.step(Event::ServerStarted), Action::Nothing);
    assert_eq!(coordinator.step(Event::ListenerInstalled), Action::Nothing);
    assert_eq!(coordinator.state(), &State::Idle);

    coordinator.step(Event::Begin);
    assert_eq!(coordinator.step(Event::Begin), Action::Nothing);
    assert_eq!(coordinator.step(Event::ListenerInstalled), Action::Nothing);
    assert_eq!(coordinator.step(Event::ListenerFailed("x".to_string())), Action::Nothing);
    assert_eq!(coordinator.step(Event::Joined(JoinResult::Fault)), Action::Nothing);
    assert_eq!(coordinator.state(), &State::Launching);

    coordinator.step(Event::ServerStarted);
    assert_eq!(coordinator.step(Event::ServerStarted), Action::Nothing);
    assert_eq!(coordinator.step(Event::StartFailed("x".to_string())), Action::Nothing);
    assert_eq!(coordinator.step(Event::Joined(JoinResult::Completed)), Action::Nothing);
    assert_eq!(coordinator.state(), &State::Arming);

    coordinator.step(Event::ListenerInstalled);
    assert_eq!(coordinator.step(Event::Begin), Action::Nothing);
    assert_eq!(coordinator.step(Event::ListenerInstalled), Action::Nothing);
    assert_eq!(coordinator.step(Event::StartFailed("x".to_string())), Action::Nothing);
    assert_eq!(coordinator.state(), &State::Running);
}

#[test]
fn accepts_tells_which_events_apply() {
    let mut coordinator = Coordinator::new();
    assert!(coordinator.accepts(&Event::Begin));
    assert!(!coordinator.accepts(&Event::ServerStarted));
    assert!(!coordinator.accepts(&Event::SignalDelivered));

    coordinator.step(Event::Begin);
    assert!(coordinator.accepts(&Event::ServerStarted));
    assert!(coordinator.accepts(&Event::StartFailed("x".to_string())));
    assert!(!coordinator.accepts(&Event::Begin));
    assert!(!coordinator.accepts(&Event::ListenerInstalled));

    coordinator.step(Event::ServerStarted);
    assert!(coordinator.accepts(&Event::ListenerInstalled));
    assert!(coordinator.accepts(&Event::ListenerFailed("x".to_string())));
    assert!(!coordinator.accepts(&Event::SignalDelivered));
    assert!(!coordinator.accepts(&Event::Joined(JoinResult::Completed)));

    coordinator.step(Event::ListenerInstalled);
    assert!(coordinator.accepts(&Event::SignalDelivered));
    assert!(coordinator.accepts(&Event::Joined(JoinResult::Completed)));
    assert!(!coordinator.accepts(&Event::ListenerInstalled));

    coordinator.step(Event::SignalDelivered);
    assert!(!coordinator.accepts(&Event::SignalDelivered));
    assert!(coordinator.accepts(&Event::Joined(JoinResult::Fault)));
}

#[test]
fn the_join_result_decides_the_outcome() {
    assert_eq!(
        Outcome::from_join(ShutdownCause::Signal, JoinResult::Completed),
        Outcome::Stopped(ShutdownCause::Signal)
    );
    assert_eq!(
        Outcome::from_join(ShutdownCause::ServerExit, JoinResult::ServerError("e".to_string())),
        Outcome::ShutdownError(ShutdownCause::ServerExit, "e".to_string())
    );
    assert_eq!(
        Outcome::from_join(ShutdownCause::Signal, JoinResult::Fault),
        Outcome::ExecutionFault(ShutdownCause::Signal)
    );
}

#[test]
fn exit_codes_are_zero_for_a_clean_stop_and_one_otherwise() {
    assert_eq!(Outcome::Stopped(ShutdownCause::Signal).exit_code(), 0);
    assert_eq!(Outcome::Stopped(ShutdownCause::ServerExit).exit_code(), 0);
    assert_eq!(Outcome::StartupError("e".to_string()).exit_code(), 1);
    assert_eq!(Outcome::ShutdownError(ShutdownCause::Signal, "e".to_string()).exit_code(), 1);
    assert_eq!(Outcome::ShutdownError(ShutdownCause::ServerExit, "e".to_string()).exit_code(), 1);
    assert_eq!(Outcome::ExecutionFault(ShutdownCause::Signal).exit_code(), 1);
    assert_eq!(Outcome::ExecutionFault(ShutdownCause::ServerExit).exit_code(), 1);
}

#[test]
fn an_error_report_names_its_stage() {
    assert_eq!(
        Outcome::StartupError("address in use".to_string()).report(),
        Some("startup error: address in use".to_string())
    );
    assert_eq!(
        Outcome::ShutdownError(ShutdownCause::Signal, "could not drain".to_string()).report(),
        Some("shutdown error: could not drain".to_string())
    );
    assert_eq!(
        Outcome::ShutdownError(ShutdownCause::ServerExit, "crashed".to_string()).report(),
        Some("shutdown error: crashed".to_string())
    );
    assert_eq!(
        Outcome::ExecutionFault(ShutdownCause::ServerExit).report(),
        Some("execution fault: the server's execution unit could not be joined".to_string())
    );
    assert_eq!(Outcome::Stopped(ShutdownCause::Signal).report(), None);
    assert_eq!(Outcome::Stopped(ShutdownCause::ServerExit).report(), None);
}

#[test]
fn an_outcome_gives_back_the_text_of_its_error() {
    assert_eq!(Outcome::StartupError("a".to_string()).description(), Some("a"));
    assert_eq!(
        Outcome::ShutdownError(ShutdownCause::Signal, "b".to_string()).description(),
        Some("b")
    );
    assert_eq!(Outcome::ExecutionFault(ShutdownCause::Signal).description(), None);
    assert_eq!(Outcome::Stopped(ShutdownCause::Signal).description(), None);
}

#[test]
fn a_cloned_outcome_equals_its_original() {
    let outcomes = vec![
        Outcome::Stopped(ShutdownCause::Signal),
        Outcome::StartupError("a".to_string()),
        Outcome::ShutdownError(ShutdownCause::ServerExit, "b".to_string()),
        Outcome::ExecutionFault(ShutdownCause::Signal),
    ];
    for outcome in outcomes {
        assert_eq!(outcome.clone(), outcome);
    }
}

#[test]
fn cloned_events_actions_and_states_equal_their_originals() {
    let events = vec![
        Event::Begin,
        Event::ServerStarted,
        Event::StartFailed("a".to_string()),
        Event::ListenerInstalled,
        Event::ListenerFailed("b".to_string()),
        Event::SignalDelivered,
        Event::Joined(JoinResult::Completed),
        Event::Joined(JoinResult::ServerError("c".to_string())),
        Event::Joined(JoinResult::Fault),
    ];
    for event in &events {
        assert_eq!(event.clone(), *event);
    }
    let actions = vec![
        Action::Nothing,
        Action::StartServer,
        Action::InstallListener,
        Action::Join,
        Action::RequestShutdown,
        Action::Exit(Outcome::ShutdownError(ShutdownCause::Signal, "d".to_string())),
    ];
    for action in &actions {
        assert_eq!(action.clone(), *action);
    }
    let states = vec![
        State::Idle,
        State::Launching,
        State::Arming,
        State::Running,
        State::ShuttingDown,
        State::Finished(Outcome::StartupError("e".to_string())),
    ];
    for state in &states {
        assert_eq!(state.clone(), *state);
    }
}

#[test]
fn every_action_but_nothing_has_a_kind() {
    assert_eq!(Action::Nothing.kind(), None);
    assert_eq!(Action::StartServer.kind(), Some(ActionKind::StartServer));
    assert_eq!(Action::InstallListener.kind(), Some(ActionKind::InstallListener));
    assert_eq!(Action::Join.kind(), Some(ActionKind::Join));
    assert_eq!(Action::RequestShutdown.kind(), Some(ActionKind::RequestShutdown));
    assert_eq!(
        Action::Exit(Outcome::Stopped(ShutdownCause::Signal)).kind(),
        Some(ActionKind::Exit)
    );
    assert_eq!(
        Action::Exit(Outcome::StartupError("a".to_string())).kind(),
        Some(ActionKind::Exit)
    );
}

#[test]
fn the_default_coordinator_is_idle() {
    let coordinator = Coordinator::default();
    assert_eq!(coordinator.state(), &State::Idle);
    assert_eq!(coordinator.phase(), Phase::Idle);
}
