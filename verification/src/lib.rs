//! Supervision of long-running service processes on one host.
//!
//! The heart of the crate is [`supervisor::Supervisor`], the state machine
//! that owns at most one child process of a service and drives its start,
//! stop and restart. It performs no input or output itself: it hands out
//! orders (spawn this command, deliver this signal, write this pidfile) and
//! takes in what became of them, so that every decision has a contract that
//! is proved for all answers of the outside world.
//!
//! - [`state`], [`process`], [`config`], [`error`]: the values a supervisor
//!   works with.
//! - [`clock`]: the steady clock and the grace period.
//! - [`supervisor`]: the lifecycle operations.
//! - [`shutdown`]: the escalation from the graceful to the forceful signal.
//! - [`decimal`]: the pidfile's number format.
//! - [`record`], [`relay`]: the status record and the tagging of output.
//! - [`laws`]: what holds over whole sequences of operations.
//! - [`event`]: which events go out about a service.
//! - [`studio`]: what the launcher of a build studio decides.

pub mod clock;
pub mod config;
pub mod decimal;
pub mod error;
pub mod event;
pub mod laws;
pub mod process;
pub mod record;
pub mod relay;
pub mod shutdown;
pub mod state;
pub mod studio;
pub mod supervisor;
