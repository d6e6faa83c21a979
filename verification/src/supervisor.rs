//! The supervisor of one service: a state machine that holds at most one
//! child process, decides what to spawn and what to signal, and takes in
//! what became of it.
//!
//! The supervisor performs no input or output. Each operation that needs the
//! outside world is split in two: a decision, which returns an order (spawn
//! this command, deliver this signal, write this pidfile), and a completion,
//! which is told how the order went and moves the state on. Operations that
//! stamp a transition come in two forms: one that reads the steady clock,
//! and one, ending in `_at`, that is given the reading.

use vstd::prelude::*;
use vstd::string::*;
use crate::clock::Instant;
use crate::config::{PackageIdent, RuntimeConfig};
use crate::decimal::{decimal, parse_u32};
use crate::error::SupError;
use crate::process::{ChildHandle, ChildStatus, Signal, SignalOrder};
use crate::state::ProcessState;

verus! {

/// An order to spawn the run command of a service, together with the state
/// that the supervisor goes back to if the spawn fails.
#[derive(Debug)]
pub struct SpawnOrder {
    /// The command to execute.
    pub run_cmd: String,
    /// The user to run it as.
    pub svc_user: String,
    /// The group to run it in.
    pub svc_group: String,
    /// The state the supervisor was in before it set out to start.
    pub prior_state: ProcessState,
    /// When it had entered that state.
    pub prior_entered: Instant,
}

impl SpawnOrder {
    /// Whether this is the order that `sup` gives when it sets out to start:
    /// its run command under its configured identity, and its present state
    /// to fall back on.
    pub open spec fn is_for(&self, sup: &Supervisor) -> bool {
        &&& self.run_cmd@ == sup.run_cmd_path()
        &&& self.svc_user@ == sup.runtime_config.svc_user@
        &&& self.svc_group@ == sup.runtime_config.svc_group@
        &&& self.prior_state == sup.state
        &&& self.prior_entered == sup.state_entered
    }
}

/// What `start` decided.
#[derive(Debug)]
pub enum StartStep {
    /// A child is already held: nothing is to be done.
    AlreadyStarted,
    /// No child is held: the run command is to be spawned.
    Spawn(SpawnOrder),
}

/// An order to write a pidfile: the whole contents for the file at `path`.
#[derive(Debug)]
pub struct PidfileWrite {
    pub path: String,
    pub contents: String,
}

/// What is to be done once a child has been spawned: record its identifier
/// in the pidfile and relay its output under the service's label.
#[derive(Debug)]
pub struct Launch {
    pub pidfile: PidfileWrite,
    pub relay_label: String,
}

/// What taking a service down asks for: the graceful signal for the child,
/// if one is held, and, once the stop that follows is over, the removal of
/// the pidfile. A pidfile that cannot be removed fails nothing.
#[derive(Debug)]
pub struct DownOrder {
    pub signal: Option<SignalOrder>,
    pub pidfile: String,
}

/// The supervisor of one service.
#[derive(Debug)]
pub struct Supervisor {
    /// The child process, while one is believed to exist.
    pub child: Option<ChildHandle>,
    /// The package that the service runs.
    pub package_ident: PackageIdent,
    /// The label under which the service appears in output and reports.
    pub preamble: String,
    /// The directory that holds the service's run command and pidfile.
    pub service_dir: String,
    /// The current lifecycle state.
    pub state: ProcessState,
    /// When the current state was entered.
    pub state_entered: Instant,
    /// Whether a spawn has ever succeeded.
    pub has_started: bool,
    /// The identity that the service runs under.
    pub runtime_config: RuntimeConfig,
}

impl Supervisor {
    /// A child can only be held after a spawn has succeeded.
    pub open spec fn wf(&self) -> bool {
        self.child is Some ==> self.has_started
    }

    /// A supervisor that has just been made at `now`: down, without a
    /// child, never started.
    pub open spec fn fresh(
        package_ident: PackageIdent,
        preamble: String,
        service_dir: String,
        runtime_config: RuntimeConfig,
        now: Instant,
    ) -> Supervisor {
        Supervisor {
            child: None,
            package_ident,
            preamble,
            service_dir,
            state: ProcessState::Down,
            state_entered: now,
            has_started: false,
            runtime_config,
        }
    }

    /// The supervisor after it has entered `state` at `now`.
    pub open spec fn entered(&self, state: ProcessState, now: Instant) -> Supervisor {
        Supervisor { state, state_entered: now, ..*self }
    }

    /// The supervisor after a probe of its child has come back with
    /// `status` at `now`. Only an exit of a held child changes anything: the
    /// child is let go, and a supervisor that is down enters `Down` anew.
    pub open spec fn checked(&self, status: ChildStatus, now: Instant) -> Supervisor {
        if self.child is Some && status.spec_is_exit() {
            if self.state is Down {
                Supervisor { child: None, state_entered: now, ..*self }
            } else {
                Supervisor { child: None, ..*self }
            }
        } else {
            *self
        }
    }

    /// The order that `signal` be delivered to the child, if one is held.
    pub open spec fn signal_order(&self, signal: Signal) -> Option<SignalOrder> {
        match self.child {
            Some(child) => Some(SignalOrder { pid: child.pid, signal }),
            None => None,
        }
    }

    /// The supervisor after it has set out to start at `now`: in `Start` if
    /// it holds no child, unchanged if it holds one.
    pub open spec fn start_begun(&self, now: Instant) -> Supervisor {
        if self.child is None {
            self.entered(ProcessState::Start, now)
        } else {
            *self
        }
    }

    /// The supervisor after the spawn that `order` asked for has ended. With
    /// a process identifier it holds that child, is `Up` since `now` and has
    /// started; without one it is back in the state that `order` recorded.
    pub open spec fn start_finished(
        &self,
        order: SpawnOrder,
        spawned: Option<u32>,
        now: Instant,
    ) -> Supervisor {
        match spawned {
            Some(pid) => Supervisor {
                child: Some(ChildHandle { pid }),
                state: ProcessState::Up,
                state_entered: now,
                has_started: true,
                ..*self
            },
            None => Supervisor {
                state: order.prior_state,
                state_entered: order.prior_entered,
                ..*self
            },
        }
    }

    /// The path of the run command: `run` in the service directory.
    pub open spec fn run_cmd_path(&self) -> Seq<char> {
        self.service_dir@ + "/run"@
    }

    /// The path of the pidfile: `PID` in the service directory.
    pub open spec fn pid_file_path(&self) -> Seq<char> {
        self.service_dir@ + "/PID"@
    }

    /// What the pidfile is to hold: the child's identifier in decimal, if a
    /// child is held.
    pub open spec fn pidfile_contents(&self) -> Option<Seq<char>> {
        match self.child {
            Some(child) => Some(decimal(child.pid as nat)),
            None => None,
        }
    }

    /// The status line for a supervisor that has been in its state for the
    /// time that `elapsed` renders: the label, a colon, the state's name,
    /// the word `for` and that time.
    pub open spec fn status_line(&self, elapsed: Seq<char>) -> Seq<char> {
        self.preamble@ + ": "@ + self.state.spec_name() + " for "@ + elapsed
    }

    /// The status line at `now`: the label, the state's name and the time
    /// spent in the state.
    pub open spec fn status_text(&self, now: Instant) -> Seq<char> {
        self.status_line(self.state_entered.spec_elapsed_text(now))
    }

    /// Makes the supervisor of a service at the instant `now`.
    pub fn new_at(
        package_ident: PackageIdent,
        preamble: String,
        service_dir: String,
        runtime_config: RuntimeConfig,
        now: Instant,
    ) -> (r: Supervisor)
        ensures
            r == Supervisor::fresh(package_ident, preamble, service_dir, runtime_config, now),
            r.wf(),
    {
        Supervisor {
            child: None,
            package_ident,
            preamble,
            service_dir,
            state: ProcessState::Down,
            state_entered: now,
            has_started: false,
            runtime_config,
        }
    }

    /// Makes the supervisor of a service, stamped with the current reading
    /// of the steady clock.
    pub fn new(
        package_ident: PackageIdent,
        preamble: String,
        service_dir: String,
        runtime_config: RuntimeConfig,
    ) -> (r: Supervisor)
        ensures
            exists|now: Instant|
                r == #[trigger] Supervisor::fresh(
                    package_ident,
                    preamble,
                    service_dir,
                    runtime_config,
                    now,
                ),
            r.wf(),
    {
        let now = Instant::now();
        Supervisor::new_at(package_ident, preamble, service_dir, runtime_config, now)
    }

    /// Enters `state` at `now`.
    pub fn enter_state_at(&mut self, state: ProcessState, now: Instant)
        ensures
            *final(self) == old(self).entered(state, now),
    {
        self.state = state;
        self.state_entered = now;
    }

    /// Enters `state`, stamped with the current reading of the steady clock.
    fn enter_state(&mut self, state: ProcessState)
        ensures
            exists|now: Instant| *final(self) == #[trigger] old(self).entered(state, now),
    {
        let now = Instant::now();
        self.enter_state_at(state, now);
    }

    /// Whether the service is healthy, and the status line for the time
    /// spent in the state that `elapsed` renders.
    pub fn status_after(&self, elapsed: &str) -> (r: (bool, String))
        ensures
            r.0 == self.state.spec_is_healthy(),
            r.1@ == self.status_line(elapsed@),
    {
        let mut text = self.preamble.clone();
        text.append(": ");
        text.append(self.state.name());
        text.append(" for ");
        text.append(elapsed);
        (self.state.is_healthy(), text)
    }

    /// Whether the service is healthy, and the status line at `now`.
    pub fn status_at(&self, now: Instant) -> (r: (bool, String))
        ensures
            r.0 == self.state.spec_is_healthy(),
            r.1@ == self.status_text(now),
    {
        let elapsed = self.state_entered.elapsed_text(now);
        self.status_after(elapsed.as_str())
    }

    /// Whether the service is healthy, and the status line at the current
    /// reading of the steady clock.
    pub fn status(&self) -> (r: (bool, String))
        ensures
            r.0 == self.state.spec_is_healthy(),
            exists|now: Instant| r.1@ == #[trigger] self.status_text(now),
    {
        let now = Instant::now();
        self.status_at(now)
    }

    /// Whether the state is `Up`.
    pub fn is_up(&self) -> (r: bool)
        ensures
            r == (self.state is Up),
    {
        match self.state {
            ProcessState::Up => true,
            _ => false,
        }
    }

    /// Whether the state is `Down`.
    pub fn is_down(&self) -> (r: bool)
        ensures
            r == (self.state is Down),
    {
        match self.state {
            ProcessState::Down => true,
            _ => false,
        }
    }

    /// The directory of the service.
    pub fn service_dir(&self) -> (r: String)
        ensures
            r@ == self.service_dir@,
    {
        self.service_dir.clone()
    }

    /// The path of the run command.
    pub fn run_cmd(&self) -> (r: String)
        ensures
            r@ == self.run_cmd_path(),
    {
        self.service_dir.clone().concat("/run")
    }

    /// The path of the pidfile.
    pub fn pid_file(&self) -> (r: String)
        ensures
            r@ == self.pid_file_path(),
    {
        self.service_dir.clone().concat("/PID")
    }

    /// Sets out to start the service at `now`. Without a child the
    /// supervisor enters `Start` and orders the spawn of its run command;
    /// with one it does nothing.
    pub fn start_at(&mut self, now: Instant) -> (step: StartStep)
        ensures
            *final(self) == old(self).start_begun(now),
            old(self).child is Some ==> step is AlreadyStarted,
            old(self).child is None ==> (step matches StartStep::Spawn(order) && order.is_for(
                &*old(self),
            )),
    {
        if self.child.is_none() {
            let order = SpawnOrder {
                run_cmd: self.run_cmd(),
                svc_user: self.runtime_config.svc_user.clone(),
                svc_group: self.runtime_config.svc_group.clone(),
                prior_state: self.state,
                prior_entered: self.state_entered,
            };
            self.enter_state_at(ProcessState::Start, now);
            StartStep::Spawn(order)
        } else {
            StartStep::AlreadyStarted
        }
    }

    /// Sets out to start the service, stamped with the current reading of
    /// the steady clock.
    pub fn start(&mut self) -> (step: StartStep)
        ensures
            exists|now: Instant| *final(self) == #[trigger] old(self).start_begun(now),
            old(self).child is Some ==> step is AlreadyStarted,
            old(self).child is None ==> (step matches StartStep::Spawn(order) && order.is_for(
                &*old(self),
            )),
    {
        let now = Instant::now();
        self.start_at(now)
    }

    /// Takes in, at `now`, how the spawn that `order` asked for went:
    /// `spawned` is the identifier of the new process, or `None` where the
    /// spawn failed. On success the supervisor holds the child, is `Up` and
    /// has started, and the pidfile to write and the label to relay output
    /// under are returned. On failure the supervisor is back in the state
    /// that `order` recorded and the spawn error is returned.
    pub fn finish_start_at(&mut self, order: &SpawnOrder, spawned: Option<u32>, now: Instant) -> (r:
        Result<Launch, SupError>)
        ensures
            *final(self) == old(self).start_finished(*order, spawned, now),
            spawned is None ==> r == Err::<Launch, SupError>(SupError::SpawnFailed),
            spawned is Some ==> (r matches Ok(launch) && launch.pidfile.path@ == old(
                self,
            ).pid_file_path() && Some(launch.pidfile.contents@) == final(self).pidfile_contents()
                && launch.relay_label@ == old(self).preamble@),
    {
        match spawned {
            Some(pid) => {
                self.child = Some(ChildHandle { pid });
                self.enter_state_at(ProcessState::Up, now);
                self.has_started = true;
                let pidfile = PidfileWrite {
                    path: self.pid_file(),
                    contents: crate::decimal::render(pid as u64),
                };
                Ok(Launch { pidfile, relay_label: self.preamble.clone() })
            },
            None => {
                self.enter_state_at(order.prior_state, order.prior_entered);
                Err(SupError::SpawnFailed)
            },
        }
    }

    /// Takes in how the spawn that `order` asked for went, stamped with the
    /// current reading of the steady clock.
    pub fn finish_start(&mut self, order: &SpawnOrder, spawned: Option<u32>) -> (r: Result<
        Launch,
        SupError,
    >)
        ensures
            exists|now: Instant|
                *final(self) == #[trigger] old(self).start_finished(*order, spawned, now),
            spawned is None ==> r == Err::<Launch, SupError>(SupError::SpawnFailed),
            spawned is Some ==> (r matches Ok(launch) && launch.pidfile.path@ == old(
                self,
            ).pid_file_path() && Some(launch.pidfile.contents@) == final(self).pidfile_contents()
                && launch.relay_label@ == old(self).preamble@),
    {
        let now = Instant::now();
        self.finish_start_at(order, spawned, now)
    }

    /// Begins to stop the service: orders the graceful signal for the child,
    /// or nothing where no child is held.
    pub fn stop(&self) -> (order: Option<SignalOrder>)
        ensures
            order == self.signal_order(Signal::SIGTERM),
            self.child is None ==> order is None,
    {
        self.send_unix_signal(Signal::SIGTERM)
    }

    /// Takes the service down at `now`: enters `Down` at once, then begins
    /// to stop, and names the pidfile to remove when the stop is over.
    pub fn down_at(&mut self, now: Instant) -> (order: DownOrder)
        ensures
            *final(self) == old(self).entered(ProcessState::Down, now),
            order.signal == old(self).signal_order(Signal::SIGTERM),
            order.pidfile@ == old(self).pid_file_path(),
    {
        self.enter_state_at(ProcessState::Down, now);
        DownOrder { signal: self.stop(), pidfile: self.pid_file() }
    }

    /// Takes the service down, stamped with the current reading of the
    /// steady clock.
    pub fn down(&mut self) -> (order: DownOrder)
        ensures
            exists|now: Instant|
                *final(self) == #[trigger] old(self).entered(ProcessState::Down, now),
            order.signal == old(self).signal_order(Signal::SIGTERM),
            order.pidfile@ == old(self).pid_file_path(),
    {
        self.enter_state(ProcessState::Down);
        DownOrder { signal: self.stop(), pidfile: self.pid_file() }
    }

    /// Begins a restart at `now`: enters `Restart`, then begins to stop.
    pub fn restart_at(&mut self, now: Instant) -> (order: Option<SignalOrder>)
        ensures
            *final(self) == old(self).entered(ProcessState::Restart, now),
            order == old(self).signal_order(Signal::SIGTERM),
    {
        self.enter_state_at(ProcessState::Restart, now);
        self.stop()
    }

    /// Begins a restart, stamped with the current reading of the steady
    /// clock.
    pub fn restart(&mut self) -> (order: Option<SignalOrder>)
        ensures
            exists|now: Instant|
                *final(self) == #[trigger] old(self).entered(ProcessState::Restart, now),
            order == old(self).signal_order(Signal::SIGTERM),
    {
        self.enter_state(ProcessState::Restart);
        self.stop()
    }

    /// Orders `signal` for the child, or nothing where no child is held. The
    /// state is not touched.
    pub fn send_unix_signal(&self, signal: Signal) -> (order: Option<SignalOrder>)
        ensures
            order == self.signal_order(signal),
    {
        match self.child {
            Some(child) => Some(SignalOrder { pid: child.id(), signal }),
            None => None,
        }
    }

    /// Takes in, at `now`, what a probe of the child found. It never fails:
    /// a failed probe is passed over like a running child.
    pub fn check_process_at(&mut self, status: ChildStatus, now: Instant) -> (r: Result<
        (),
        SupError,
    >)
        ensures
            r is Ok,
            *final(self) == old(self).checked(status, now),
    {
        let changed = match self.child {
            None => false,
            Some(_) => status.is_exit(),
        };
        if changed {
            match self.state {
                ProcessState::Up | ProcessState::Start | ProcessState::Restart => {
                    self.child = None;
                },
                ProcessState::Down => {
                    self.enter_state_at(ProcessState::Down, now);
                    self.child = None;
                },
            }
        }
        Ok(())
    }

    /// Takes in what a probe of the child found, stamped with the current
    /// reading of the steady clock.
    pub fn check_process(&mut self, status: ChildStatus) -> (r: Result<(), SupError>)
        ensures
            r is Ok,
            exists|now: Instant| *final(self) == #[trigger] old(self).checked(status, now),
    {
        let now = Instant::now();
        self.check_process_at(status, now)
    }

    /// The pidfile to write for the child that is held, or nothing where
    /// none is held.
    pub fn create_pidfile(&self) -> (r: Option<PidfileWrite>)
        ensures
            self.child is None ==> r is None,
            self.child is Some ==> (r matches Some(write) && write.path@ == self.pid_file_path()
                && Some(write.contents@) == self.pidfile_contents()),
    {
        match self.child {
            Some(child) => Some(
                PidfileWrite {
                    path: self.pid_file(),
                    contents: crate::decimal::render(child.id() as u64),
                },
            ),
            None => None,
        }
    }

    /// Reads the process identifier out of what the pidfile holds. Contents
    /// that are not a process identifier in decimal are an error.
    pub fn read_pidfile(&self, contents: &str) -> (r: Result<Option<u32>, SupError>)
        ensures
            parse_u32(contents@) matches Some(pid) ==> r == Ok::<Option<u32>, SupError>(
                Some(pid),
            ),
            parse_u32(contents@) is None ==> r == Err::<Option<u32>, SupError>(
                SupError::InvalidPidFile,
            ),
    {
        match crate::decimal::parse(contents) {
            Some(pid) => Ok(Some(pid)),
            None => Err(SupError::InvalidPidFile),
        }
    }
}

} // verus!
