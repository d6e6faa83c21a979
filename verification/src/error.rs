//! The failures that supervision reports to its caller.

use vstd::prelude::*;

verus! {

/// Why an operation on a supervised service failed.
#[derive(Debug, Clone, Copy, PartialEq, Eq, Structural)]
pub enum SupError {
    /// The pidfile does not hold a process identifier.
    InvalidPidFile,
    /// The run command could not be spawned.
    SpawnFailed,
    /// A signal could not be delivered to the child process.
    SignalFailed,
    /// The child's standard output could not be taken over for relaying.
    UnpackFailed,
}

} // verus!
