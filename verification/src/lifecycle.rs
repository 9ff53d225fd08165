//! The lifecycle coordinator.
//!
//! The coordinator is a state machine. Its driver reports what happened
//! outside as an [`Event`]; the coordinator answers with the one [`Action`]
//! that the driver must carry out next. The states are
//!
//! ```text
//! Idle -> Starting -> Running -> ShuttingDown -> Stopped
//!             |
//!             +-----> Failed
//! ```
//!
//! `Starting` lasts until the termination-signal listener is installed, so
//! that a coordinator in `Running` always has a listener, and the listener is
//! in place before the blocking join begins. A driver that shares the
//! coordinator between its main flow and the signal listener must serialize
//! the calls of [`Coordinator::step`], and must keep signals from being
//! delivered between the registration of the listener and the report of
//! [`Event::ListenerInstalled`].

use vstd::prelude::*;

verus! {

/// The lifecycle states that an observer can tell apart.
#[derive(Clone, Copy, Debug, PartialEq, Eq, Structural, Hash)]
pub enum Phase {
    /// Nothing has been started.
    Idle,
    /// The server is being started, or the signal listener is being installed.
    Starting,
    /// The server is up, the listener is installed, the join is under way.
    Running,
    /// Shutdown has been requested; the join has not returned yet.
    ShuttingDown,
    /// The join has returned. Terminal.
    Stopped,
    /// Startup did not complete. Terminal.
    Failed,
}

/// What set the shutdown off.
#[derive(Clone, Copy, Debug, PartialEq, Eq, Structural, Hash)]
pub enum ShutdownCause {
    /// A termination signal was delivered while the server was running.
    Signal,
    /// The server terminated on its own, without a signal.
    ServerExit,
}

/// The three ways in which joining the server's execution unit can end.
#[derive(Debug, PartialEq, Eq)]
pub enum JoinResult {
    /// The server returned normally.
    Completed,
    /// The server returned an error of its own, described by the text.
    ServerError(String),
    /// The execution unit itself could not be joined.
    Fault,
}

/// The part of the lifecycle in which an error arose.
#[derive(Clone, Copy, Debug, PartialEq, Eq, Structural, Hash)]
pub enum Stage {
    Startup,
    Shutdown,
}

/// How the lifecycle ended.
#[derive(Debug, PartialEq, Eq)]
pub enum Outcome {
    /// The server stopped without error.
    Stopped(ShutdownCause),
    /// The server or the signal listener could not be brought up.
    StartupError(String),
    /// The server reported an error while stopping, or stopped unexpectedly
    /// with an error.
    ShutdownError(ShutdownCause, String),
    /// The execution unit that hosted the server could not be joined.
    ExecutionFault(ShutdownCause),
}

/// What the driver observed.
#[derive(Debug, PartialEq, Eq)]
pub enum Event {
    /// The configuration is resolved and logging is initialized.
    Begin,
    /// The server starter returned a handle: the server is listening.
    ServerStarted,
    /// The server starter reported an error, described by the text.
    StartFailed(String),
    /// The termination-signal listener is registered.
    ListenerInstalled,
    /// The termination-signal listener could not be registered.
    ListenerFailed(String),
    /// The listener received a termination signal.
    SignalDelivered,
    /// The join on the server's execution unit returned.
    Joined(JoinResult),
}

/// What the driver must do next.
#[derive(Debug, PartialEq, Eq)]
pub enum Action {
    /// The event does not apply in the current state: do nothing.
    Nothing,
    /// Start the server on its own execution unit.
    StartServer,
    /// Register the termination-signal listener, bound to the server's
    /// shutdown trigger.
    InstallListener,
    /// Block on the join of the server's execution unit.
    Join,
    /// Invoke the server's shutdown trigger.
    RequestShutdown,
    /// Report the outcome and leave with its exit code.
    Exit(Outcome),
}

/// The kinds of action that call for something to be done, in the order in
/// which a lifecycle asks for them.
#[derive(Clone, Copy, Debug, PartialEq, Eq, Structural, Hash)]
pub enum ActionKind {
    StartServer,
    InstallListener,
    Join,
    RequestShutdown,
    Exit,
}

impl Action {
    /// The kind of the action; `None` for `Nothing`.
    pub open spec fn kind_of(self) -> Option<ActionKind> {
        match self {
            Action::Nothing => None,
            Action::StartServer => Some(ActionKind::StartServer),
            Action::InstallListener => Some(ActionKind::InstallListener),
            Action::Join => Some(ActionKind::Join),
            Action::RequestShutdown => Some(ActionKind::RequestShutdown),
            Action::Exit(_) => Some(ActionKind::Exit),
        }
    }

    /// The kind of the action; `None` for `Nothing`.
    pub fn kind(&self) -> (kind: Option<ActionKind>)
        ensures
            kind == self.kind_of(),
    {
        match self {
            Action::Nothing => None,
            Action::StartServer => Some(ActionKind::StartServer),
            Action::InstallListener => Some(ActionKind::InstallListener),
            Action::Join => Some(ActionKind::Join),
            Action::RequestShutdown => Some(ActionKind::RequestShutdown),
            Action::Exit(_) => Some(ActionKind::Exit),
        }
    }
}

/// The states of the coordinator. `Launching` and `Arming` are the two halves
/// of the phase `Starting`.
#[derive(Debug, PartialEq, Eq)]
pub enum State {
    /// Nothing has been started.
    Idle,
    /// The server starter has been called and has not answered.
    Launching,
    /// The server is up; the signal listener is being installed.
    Arming,
    /// The listener is installed and the join is under way.
    Running,
    /// A signal was delivered and shutdown requested; the join is under way.
    ShuttingDown,
    /// The lifecycle has ended.
    Finished(Outcome),
}

/// What a report of a startup error begins with.
pub const STARTUP_PREFIX: &'static str = "startup error: ";

/// What a report of a shutdown error begins with.
pub const SHUTDOWN_PREFIX: &'static str = "shutdown error: ";

/// The report of an execution fault.
pub const EXECUTION_FAULT_REPORT: &'static str =
    "execution fault: the server's execution unit could not be joined";

impl Outcome {
    /// The terminal phase that the outcome belongs to.
    pub open spec fn phase(self) -> Phase {
        match self {
            Outcome::StartupError(_) => Phase::Failed,
            _ => Phase::Stopped,
        }
    }

    /// The exit code of the process: 0 for a graceful stop, 1 for any error.
    pub open spec fn exit_status(self) -> int {
        match self {
            Outcome::Stopped(_) => 0,
            _ => 1,
        }
    }

    /// The stage in which the error arose; `None` for a graceful stop.
    pub open spec fn error_stage(self) -> Option<Stage> {
        match self {
            Outcome::Stopped(_) => None,
            Outcome::StartupError(_) => Some(Stage::Startup),
            Outcome::ShutdownError(_, _) => Some(Stage::Shutdown),
            Outcome::ExecutionFault(_) => Some(Stage::Shutdown),
        }
    }

    /// What set the shutdown off; `None` where the server never ran.
    pub open spec fn shutdown_cause(self) -> Option<ShutdownCause> {
        match self {
            Outcome::Stopped(cause) => Some(cause),
            Outcome::StartupError(_) => None,
            Outcome::ShutdownError(cause, _) => Some(cause),
            Outcome::ExecutionFault(cause) => Some(cause),
        }
    }

    /// The text that describes the error, where the outcome carries one.
    pub open spec fn error_text(self) -> Option<Seq<char>> {
        match self {
            Outcome::StartupError(text) => Some(text@),
            Outcome::ShutdownError(_, text) => Some(text@),
            _ => None,
        }
    }

    /// The line to write to the diagnostic output: the stage and what went
    /// wrong. `None` for a graceful stop, of which nothing is reported.
    pub open spec fn report_text(self) -> Option<Seq<char>> {
        match self {
            Outcome::Stopped(_) => None,
            Outcome::StartupError(text) => Some(STARTUP_PREFIX@ + text@),
            Outcome::ShutdownError(_, text) => Some(SHUTDOWN_PREFIX@ + text@),
            Outcome::ExecutionFault(_) => Some(EXECUTION_FAULT_REPORT@),
        }
    }

    /// The outcome of a lifecycle whose join ended with `result`, after a
    /// shutdown set off by `cause`.
    pub open spec fn of_join(cause: ShutdownCause, result: JoinResult) -> Outcome {
        match result {
            JoinResult::Completed => Outcome::Stopped(cause),
            JoinResult::ServerError(text) => Outcome::ShutdownError(cause, text),
            JoinResult::Fault => Outcome::ExecutionFault(cause),
        }
    }

    /// Classifies the result of the join.
    pub fn from_join(cause: ShutdownCause, result: JoinResult) -> (outcome: Outcome)
        ensures
            outcome == Outcome::of_join(cause, result),
    {
        match result {
            JoinResult::Completed => Outcome::Stopped(cause),
            JoinResult::ServerError(text) => Outcome::ShutdownError(cause, text),
            JoinResult::Fault => Outcome::ExecutionFault(cause),
        }
    }

    /// The process exit code for this outcome.
    pub fn exit_code(&self) -> (code: i32)
        ensures
            code == self.exit_status(),
    {
        match self {
            Outcome::Stopped(_) => 0,
            _ => 1,
        }
    }

    /// Whether the lifecycle ended without error.
    pub fn is_graceful(&self) -> (graceful: bool)
        ensures
            graceful == (*self is Stopped),
            graceful == (self.exit_status() == 0),
    {
        match self {
            Outcome::Stopped(_) => true,
            _ => false,
        }
    }

    /// The stage to name when the error is reported.
    pub fn stage(&self) -> (stage: Option<Stage>)
        ensures
            stage == self.error_stage(),
    {
        match self {
            Outcome::Stopped(_) => None,
            Outcome::StartupError(_) => Some(Stage::Startup),
            Outcome::ShutdownError(_, _) => Some(Stage::Shutdown),
            Outcome::ExecutionFault(_) => Some(Stage::Shutdown),
        }
    }

    /// The text that describes the error, where the outcome carries one.
    pub fn description(&self) -> (text: Option<&str>)
        ensures
            match text {
                Some(text) => self.error_text() == Some(text@),
                None => self.error_text() is None,
            },
    {
        match self {
            Outcome::StartupError(text) => Some(text.as_str()),
            Outcome::ShutdownError(_, text) => Some(text.as_str()),
            _ => None,
        }
    }

    /// The line to write to the diagnostic output for this outcome.
    pub fn report(&self) -> (line: Option<String>)
        ensures
            match line {
                Some(line) => self.report_text() == Some(line@),
                None => self.report_text() is None,
            },
    {
        match self {
            Outcome::Stopped(_) => None,
            Outcome::StartupError(text) => Some(
                STARTUP_PREFIX.to_owned().concat(text.as_str()),
            ),
            Outcome::ShutdownError(_, text) => Some(
                SHUTDOWN_PREFIX.to_owned().concat(text.as_str()),
            ),
            Outcome::ExecutionFault(_) => Some(EXECUTION_FAULT_REPORT.to_owned()),
        }
    }

    /// What set the shutdown off.
    pub fn cause(&self) -> (cause: Option<ShutdownCause>)
        ensures
            cause == self.shutdown_cause(),
    {
        match self {
            Outcome::Stopped(cause) => Some(*cause),
            Outcome::StartupError(_) => None,
            Outcome::ShutdownError(cause, _) => Some(*cause),
            Outcome::ExecutionFault(cause) => Some(*cause),
        }
    }
}

impl Clone for JoinResult {
    fn clone(&self) -> (copy: JoinResult)
        ensures
            copy == *self,
    {
        match self {
            JoinResult::Completed => JoinResult::Completed,
            JoinResult::ServerError(text) => JoinResult::ServerError(text.clone()),
            JoinResult::Fault => JoinResult::Fault,
        }
    }
}

impl Clone for Event {
    fn clone(&self) -> (copy: Event)
        ensures
            copy == *self,
    {
        match self {
            Event::Begin => Event::Begin,
            Event::ServerStarted => Event::ServerStarted,
            Event::StartFailed(text) => Event::StartFailed(text.clone()),
            Event::ListenerInstalled => Event::ListenerInstalled,
            Event::ListenerFailed(text) => Event::ListenerFailed(text.clone()),
            Event::SignalDelivered => Event::SignalDelivered,
            Event::Joined(result) => Event::Joined(result.clone()),
        }
    }
}

impl Clone for Action {
    fn clone(&self) -> (copy: Action)
        ensures
            copy == *self,
    {
        match self {
            Action::Nothing => Action::Nothing,
            Action::StartServer => Action::StartServer,
            Action::InstallListener => Action::InstallListener,
            Action::Join => Action::Join,
            Action::RequestShutdown => Action::RequestShutdown,
            Action::Exit(outcome) => Action::Exit(outcome.clone()),
        }
    }
}

impl Clone for State {
    fn clone(&self) -> (copy: State)
        ensures
            copy == *self,
    {
        match self {
            State::Idle => State::Idle,
            State::Launching => State::Launching,
            State::Arming => State::Arming,
            State::Running => State::Running,
            State::ShuttingDown => State::ShuttingDown,
            State::Finished(outcome) => State::Finished(outcome.clone()),
        }
    }
}

impl Clone for Outcome {
    fn clone(&self) -> (copy: Outcome)
        ensures
            copy == *self,
    {
        match self {
            Outcome::Stopped(cause) => Outcome::Stopped(*cause),
            Outcome::StartupError(text) => Outcome::StartupError(text.clone()),
            Outcome::ShutdownError(cause, text) => Outcome::ShutdownError(*cause, text.clone()),
            Outcome::ExecutionFault(cause) => Outcome::ExecutionFault(*cause),
        }
    }
}

impl State {
    /// The phase that an observer sees.
    pub open spec fn phase(self) -> Phase {
        match self {
            State::Idle => Phase::Idle,
            State::Launching => Phase::Starting,
            State::Arming => Phase::Starting,
            State::Running => Phase::Running,
            State::ShuttingDown => Phase::ShuttingDown,
            State::Finished(outcome) => outcome.phase(),
        }
    }

    /// Whether the lifecycle has ended.
    pub open spec fn is_terminal(self) -> bool {
        self is Finished
    }

    /// Whether a termination-signal listener is installed and live.
    pub open spec fn listener_live(self) -> bool {
        self is Running || self is ShuttingDown
    }

    /// The outcome, once the lifecycle has ended.
    pub open spec fn outcome(self) -> Option<Outcome> {
        match self {
            State::Finished(outcome) => Some(outcome),
            _ => None,
        }
    }
}

/// The state and the action that end the lifecycle with `outcome`.
pub open spec fn finish(outcome: Outcome) -> (State, Action) {
    (State::Finished(outcome), Action::Exit(outcome))
}

/// The transition function: the state that follows `state` on `event`, and
/// the action that the driver must then carry out. An event that does not
/// apply in `state` leaves the state as it is and asks for nothing.
///
/// A join that returns while the server is `Running` is the server stopping
/// on its own: the shutdown begins and ends in that one step, and the outcome
/// records `ServerExit` as its cause. A join that returns in `ShuttingDown`
/// ends a shutdown that a signal set off.
pub open spec fn transition(state: State, event: Event) -> (State, Action) {
    match (state, event) {
        (State::Idle, Event::Begin) => (State::Launching, Action::StartServer),
        (State::Launching, Event::ServerStarted) => (State::Arming, Action::InstallListener),
        (State::Launching, Event::StartFailed(text)) => finish(Outcome::StartupError(text)),
        (State::Arming, Event::ListenerInstalled) => (State::Running, Action::Join),
        (State::Arming, Event::ListenerFailed(text)) => finish(Outcome::StartupError(text)),
        (State::Running, Event::SignalDelivered) => (
            State::ShuttingDown,
            Action::RequestShutdown,
        ),
        (State::Running, Event::Joined(result)) => finish(
            Outcome::of_join(ShutdownCause::ServerExit, result),
        ),
        (State::ShuttingDown, Event::Joined(result)) => finish(
            Outcome::of_join(ShutdownCause::Signal, result),
        ),
        _ => (state, Action::Nothing),
    }
}

/// Whether `event` applies in `state`: whether the coordinator answers it
/// with an action.
pub open spec fn applies(state: State, event: Event) -> bool {
    !(transition(state, event).1 is Nothing)
}

/// The lifecycle coordinator. Its state changes only through
/// [`Coordinator::step`].
#[derive(Debug)]
pub struct Coordinator {
    state: State,
}

impl View for Coordinator {
    type V = State;

    closed spec fn view(&self) -> State {
        self.state
    }
}

impl Default for Coordinator {
    /// A coordinator that has started nothing.
    fn default() -> (coordinator: Coordinator)
        ensures
            coordinator@ == State::Idle,
    {
        Coordinator::new()
    }
}

impl Coordinator {
    /// A coordinator that has started nothing.
    pub fn new() -> (coordinator: Coordinator)
        ensures
            coordinator@ == State::Idle,
    {
        Coordinator { state: State::Idle }
    }

    /// Takes in `event` and answers with what to do next.
    pub fn step(&mut self, event: Event) -> (action: Action)
        ensures
            (final(self)@, action) == transition(old(self)@, event),
    {
        match &self.state {
            State::Idle => match event {
                Event::Begin => {
                    self.state = State::Launching;
                    Action::StartServer
                },
                _ => Action::Nothing,
            },
            State::Launching => match event {
                Event::ServerStarted => {
                    self.state = State::Arming;
                    Action::InstallListener
                },
                Event::StartFailed(text) => self.conclude(Outcome::StartupError(text)),
                _ => Action::Nothing,
            },
            State::Arming => match event {
                Event::ListenerInstalled => {
                    self.state = State::Running;
                    Action::Join
                },
                Event::ListenerFailed(text) => self.conclude(Outcome::StartupError(text)),
                _ => Action::Nothing,
            },
            State::Running => match event {
                Event::SignalDelivered => {
                    self.state = State::ShuttingDown;
                    Action::RequestShutdown
                },
                Event::Joined(result) => self.conclude(
                    Outcome::from_join(ShutdownCause::ServerExit, result),
                ),
                _ => Action::Nothing,
            },
            State::ShuttingDown => match event {
                Event::Joined(result) => self.conclude(
                    Outcome::from_join(ShutdownCause::Signal, result),
                ),
                _ => Action::Nothing,
            },
            State::Finished(_) => Action::Nothing,
        }
    }

    /// Ends the lifecycle with `outcome`.
    fn conclude(&mut self, outcome: Outcome) -> (action: Action)
        ensures
            (final(self)@, action) == finish(outcome),
    {
        self.state = State::Finished(outcome.clone());
        Action::Exit(outcome)
    }

    /// The current state.
    pub fn state(&self) -> (state: &State)
        ensures
            *state == self@,
    {
        &self.state
    }

    /// The current phase.
    pub fn phase(&self) -> (phase: Phase)
        ensures
            phase == self@.phase(),
    {
        match &self.state {
            State::Idle => Phase::Idle,
            State::Launching => Phase::Starting,
            State::Arming => Phase::Starting,
            State::Running => Phase::Running,
            State::ShuttingDown => Phase::ShuttingDown,
            State::Finished(Outcome::StartupError(_)) => Phase::Failed,
            State::Finished(_) => Phase::Stopped,
        }
    }

    /// Whether `event` applies in the current state. An event that does not
    /// apply is ignored by [`Coordinator::step`].
    pub fn accepts(&self, event: &Event) -> (accepted: bool)
        ensures
            accepted == applies(self@, *event),
    {
        match &self.state {
            State::Idle => match event {
                Event::Begin => true,
                _ => false,
            },
            State::Launching => match event {
                Event::ServerStarted => true,
                Event::StartFailed(_) => true,
                _ => false,
            },
            State::Arming => match event {
                Event::ListenerInstalled => true,
                Event::ListenerFailed(_) => true,
                _ => false,
            },
            State::Running => match event {
                Event::SignalDelivered => true,
                Event::Joined(_) => true,
                _ => false,
            },
            State::ShuttingDown => match event {
                Event::Joined(_) => true,
                _ => false,
            },
            State::Finished(_) => false,
        }
    }

    /// Whether the lifecycle has ended.
    pub fn is_terminal(&self) -> (terminal: bool)
        ensures
            terminal == self@.is_terminal(),
    {
        match &self.state {
            State::Finished(_) => true,
            _ => false,
        }
    }

    /// Whether a termination-signal listener is installed and live. After the
    /// lifecycle has ended the listener is inert: signals are ignored.
    pub fn listener_live(&self) -> (live: bool)
        ensures
            live == self@.listener_live(),
    {
        match &self.state {
            State::Running => true,
            State::ShuttingDown => true,
            _ => false,
        }
    }

    /// The outcome, once the lifecycle has ended.
    pub fn outcome(&self) -> (outcome: Option<Outcome>)
        ensures
            outcome == self@.outcome(),
    {
        match &self.state {
            State::Finished(outcome) => Some(outcome.clone()),
            _ => None,
        }
    }
}

} // verus!
