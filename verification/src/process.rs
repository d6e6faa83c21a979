//! The child process as the supervisor sees it: a handle that names it, the
//! four-way result of probing it, and the signals sent to it.

use vstd::prelude::*;
use crate::error::SupError;

verus! {

/// The handle on a spawned process: its numeric identifier.
#[derive(Debug, Clone, Copy, PartialEq, Eq, Structural)]
pub struct ChildHandle {
    pub pid: u32,
}

impl ChildHandle {
    /// A handle on the process `pid`.
    pub fn new(pid: u32) -> (r: ChildHandle)
        ensures
            r.pid == pid,
    {
        ChildHandle { pid }
    }

    /// The identifier of the process.
    pub fn id(&self) -> (pid: u32)
        ensures
            pid == self.pid,
    {
        self.pid
    }
}

/// What a non-blocking probe of a child process found.
#[derive(Debug, Clone, Copy, PartialEq, Eq, Structural)]
pub enum ChildStatus {
    /// The process has not exited.
    Running,
    /// The process exited on its own with this code.
    ExitedCode(i32),
    /// The process was ended by this signal.
    ExitedSignal(i32),
    /// The probe itself failed; nothing is known of the process.
    QueryError,
}

impl ChildStatus {
    /// Whether the probe found that the process is gone.
    pub open spec fn spec_is_exit(&self) -> bool {
        *self is ExitedCode || *self is ExitedSignal
    }

    /// The status for an exit reported with an optional code and an
    /// optional signal. A signal is never reported as a code; a report
    /// with neither is a failed probe.
    pub open spec fn spec_exited(code: Option<i32>, signal: Option<i32>) -> ChildStatus {
        match signal {
            Some(s) => ChildStatus::ExitedSignal(s),
            None => match code {
                Some(c) => ChildStatus::ExitedCode(c),
                None => ChildStatus::QueryError,
            },
        }
    }

    /// Whether the probe found that the process is gone.
    pub fn is_exit(&self) -> (r: bool)
        ensures
            r == self.spec_is_exit(),
    {
        match self {
            ChildStatus::ExitedCode(_) | ChildStatus::ExitedSignal(_) => true,
            ChildStatus::Running | ChildStatus::QueryError => false,
        }
    }

    /// Classifies an exit that the operating system reported with an
    /// optional exit code and an optional terminating signal.
    pub fn exited(code: Option<i32>, signal: Option<i32>) -> (r: ChildStatus)
        ensures
            r == ChildStatus::spec_exited(code, signal),
    {
        match signal {
            Some(s) => ChildStatus::ExitedSignal(s),
            None => match code {
                Some(c) => ChildStatus::ExitedCode(c),
                None => ChildStatus::QueryError,
            },
        }
    }
}

/// The signals that can be sent to a supervised process.
#[allow(non_camel_case_types)]
#[derive(Debug, Clone, Copy, PartialEq, Eq, Structural)]
pub enum Signal {
    SIGHUP,
    SIGINT,
    SIGQUIT,
    SIGILL,
    SIGABRT,
    SIGFPE,
    SIGKILL,
    SIGUSR1,
    SIGSEGV,
    SIGUSR2,
    SIGALRM,
    SIGTERM,
}

/// An order to deliver one signal to one process.
#[derive(Debug, Clone, Copy, PartialEq, Eq, Structural)]
pub struct SignalOrder {
    pub pid: u32,
    pub signal: Signal,
}

impl SignalOrder {
    /// What the operation that gave the order returns once delivery was
    /// tried: a signal that could not be delivered fails the operation.
    pub fn outcome(&self, delivered: bool) -> (r: Result<(), SupError>)
        ensures
            delivered ==> r is Ok,
            !delivered ==> r == Err::<(), SupError>(SupError::SignalFailed),
    {
        if delivered {
            Ok(())
        } else {
            Err(SupError::SignalFailed)
        }
    }
}

} // verus!
