//! Bootstrap and lifecycle coordination for a long-running API server.
//!
//! The crate has four parts:
//!
//! * [`config`] resolves command-line values and defaults into one immutable
//!   [`config::Configuration`];
//! * [`trigger`] is the one-shot guard behind an idempotent shutdown trigger;
//! * [`lifecycle`] is the coordinator: a state machine that tells its driver
//!   when to start the server, install the termination-signal listener, join
//!   the server's execution unit, request shutdown and exit;
//! * [`trace`] runs the coordinator over whole sequences of events and proves
//!   what holds of every such run: each action is asked for at most once and
//!   in order, repeated signals request one shutdown, a lifecycle ends once.
//!
//! The coordinator performs no I/O. A driver feeds it the events it observes
//! and carries out the actions it answers with.

pub mod config;
pub mod lifecycle;
pub mod trace;
pub mod trigger;
