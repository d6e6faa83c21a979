//! Stopping a service: after the graceful signal the child is probed until
//! it is gone or the grace period is over, and in the second case it is
//! killed, once.
//!
//! The caller delivers the signals, probes the child and pauses between
//! probes; `Supervisor::stop_poll` decides, probe by probe, what comes next.

use vstd::prelude::*;
use crate::clock::Instant;
use crate::process::{ChildStatus, Signal, SignalOrder};
use crate::supervisor::Supervisor;

verus! {

/// What is to be done after one probe during a stop.
#[derive(Debug, Clone, Copy, PartialEq, Eq, Structural)]
pub enum StopStep {
    /// The stop is over: no further probe, no further signal.
    Done,
    /// The child is still there and the grace period still runs: pause, then
    /// probe again.
    Wait,
    /// The grace period is over and the child is still held: deliver the
    /// forceful signal; the stop is over with that.
    Kill(SignalOrder),
}

/// A stop in progress: when the graceful signal was delivered, and whether
/// the stop has come to its end.
#[derive(Debug, Clone, Copy, PartialEq, Eq, Structural)]
pub struct Shutdown {
    pub signalled_at: Instant,
    pub finished: bool,
}

/// One probe of the child during a stop: what it found, and when.
#[derive(Debug, Clone, Copy, PartialEq, Eq, Structural)]
pub struct Observation {
    pub status: ChildStatus,
    pub at: Instant,
}

/// One step of a stop: the supervisor, the stop and the next step after the
/// probe result `status` has come in at `now`.
///
/// A stop that is over stays over and changes nothing. Otherwise the probe
/// result is taken in first. Then, if the grace period is over, the stop
/// ends, with the forceful signal if a child is still held; if not and the
/// child is gone, the stop ends; else it goes on.
pub open spec fn stop_polled(
    sup: Supervisor,
    watch: Shutdown,
    status: ChildStatus,
    now: Instant,
) -> (Supervisor, Shutdown, StopStep) {
    if watch.finished {
        (sup, watch, StopStep::Done)
    } else {
        let after = sup.checked(status, now);
        let over = Shutdown { finished: true, ..watch };
        if watch.signalled_at.spec_grace_expired(now) {
            match after.child {
                Some(child) => (
                    after,
                    over,
                    StopStep::Kill(SignalOrder { pid: child.pid, signal: Signal::SIGKILL }),
                ),
                None => (after, over, StopStep::Done),
            }
        } else if after.child is None {
            (after, over, StopStep::Done)
        } else {
            (after, watch, StopStep::Wait)
        }
    }
}

/// The supervisor and the stop after the first `n` of the probes `seen` have
/// been taken in, one step each.
pub open spec fn after_polls(sup: Supervisor, watch: Shutdown, seen: Seq<Observation>, n: nat) -> (
    Supervisor,
    Shutdown,
)
    decreases n,
{
    if n == 0 {
        (sup, watch)
    } else {
        let before = after_polls(sup, watch, seen, (n - 1) as nat);
        let polled = stop_polled(before.0, before.1, seen[n - 1].status, seen[n - 1].at);
        (polled.0, polled.1)
    }
}

/// The step that the probe `seen[i]` leads to, after the probes before it
/// have been taken in.
pub open spec fn step_at(sup: Supervisor, watch: Shutdown, seen: Seq<Observation>, i: int) -> StopStep {
    let before = after_polls(sup, watch, seen, i as nat);
    stop_polled(before.0, before.1, seen[i].status, seen[i].at).2
}

impl Shutdown {
    /// The stop whose graceful signal was delivered at `now`.
    pub open spec fn spec_begin_at(now: Instant) -> Shutdown {
        Shutdown { signalled_at: now, finished: false }
    }

    /// Begins the watch over a stop whose graceful signal was delivered at
    /// `now`.
    pub fn begin_at(now: Instant) -> (watch: Shutdown)
        ensures
            watch == Shutdown::spec_begin_at(now),
    {
        Shutdown { signalled_at: now, finished: false }
    }

    /// Begins the watch over a stop whose graceful signal has just been
    /// delivered: the grace period runs from the current reading of the
    /// steady clock.
    pub fn begin() -> (watch: Shutdown)
        ensures
            !watch.finished,
            exists|now: Instant| watch == #[trigger] Shutdown::spec_begin_at(now),
    {
        let now = Instant::now();
        Shutdown::begin_at(now)
    }

    /// Whether the stop has come to its end.
    pub fn is_finished(&self) -> (r: bool)
        ensures
            r == self.finished,
    {
        self.finished
    }
}

impl Supervisor {
    /// One step of a stop: takes in, at `now`, what the latest probe found
    /// and says what comes next.
    pub fn stop_poll_at(&mut self, watch: &mut Shutdown, status: ChildStatus, now: Instant) -> (step:
        StopStep)
        ensures
            (*final(self), *final(watch), step) == stop_polled(
                *old(self),
                *old(watch),
                status,
                now,
            ),
    {
        if watch.finished {
            return StopStep::Done;
        }
        let _ = self.check_process_at(status, now);
        if watch.signalled_at.grace_expired(now) {
            watch.finished = true;
            match self.child {
                Some(child) => StopStep::Kill(
                    SignalOrder { pid: child.id(), signal: Signal::SIGKILL },
                ),
                None => StopStep::Done,
            }
        } else if self.child.is_none() {
            watch.finished = true;
            StopStep::Done
        } else {
            StopStep::Wait
        }
    }

    /// One step of a stop, stamped with the current reading of the steady
    /// clock.
    pub fn stop_poll(&mut self, watch: &mut Shutdown, status: ChildStatus) -> (step: StopStep)
        ensures
            exists|now: Instant|
                (*final(self), *final(watch), step) == #[trigger] stop_polled(
                    *old(self),
                    *old(watch),
                    status,
                    now,
                ),
    {
        let now = Instant::now();
        self.stop_poll_at(watch, status, now)
    }
}

/// A stop that is over stays as it is, whatever is probed afterwards, and
/// every later step is `Done`.
proof fn lemma_finished_stays(
    sup: Supervisor,
    watch: Shutdown,
    seen: Seq<Observation>,
    n: nat,
    m: nat,
)
    requires
        n <= m,
        after_polls(sup, watch, seen, n).1.finished,
    ensures
        after_polls(sup, watch, seen, m) == after_polls(sup, watch, seen, n),
        n <= m - 1 ==> step_at(sup, watch, seen, m - 1) == StopStep::Done,
    decreases m,
{
    if n < m {
        lemma_finished_stays(sup, watch, seen, n, (m - 1) as nat);
    }
}

/// While the grace period runs and no exit is seen, a stop of a held child
/// only waits and leaves the supervisor as it was.
proof fn lemma_waits_in_grace(sup: Supervisor, watch: Shutdown, seen: Seq<Observation>, n: nat)
    requires
        sup.child is Some,
        !watch.finished,
        n <= seen.len(),
        forall|i: int| 0 <= i < n ==> !(#[trigger] seen[i]).status.spec_is_exit(),
        forall|i: int|
            0 <= i < n ==> !watch.signalled_at.spec_grace_expired((#[trigger] seen[i]).at),
    ensures
        after_polls(sup, watch, seen, n) == (sup, watch),
        forall|i: int| 0 <= i < n ==> #[trigger] step_at(sup, watch, seen, i) == StopStep::Wait,
    decreases n,
{
    if n > 0 {
        lemma_waits_in_grace(sup, watch, seen, (n - 1) as nat);
        let last = seen[n - 1];
        assert(!last.status.spec_is_exit());
        assert(!watch.signalled_at.spec_grace_expired(last.at));
        assert(step_at(sup, watch, seen, n - 1) == StopStep::Wait);
    }
}

/// While the grace period runs, a stop orders no forceful signal.
proof fn lemma_no_kill_in_grace(sup: Supervisor, watch: Shutdown, seen: Seq<Observation>, n: nat)
    requires
        n <= seen.len(),
        forall|i: int|
            0 <= i < n ==> !watch.signalled_at.spec_grace_expired((#[trigger] seen[i]).at),
    ensures
        after_polls(sup, watch, seen, n).1.signalled_at == watch.signalled_at,
        forall|i: int| 0 <= i < n ==> !(#[trigger] step_at(sup, watch, seen, i) is Kill),
    decreases n,
{
    if n > 0 {
        lemma_no_kill_in_grace(sup, watch, seen, (n - 1) as nat);
        let last = seen[n - 1];
        assert(!watch.signalled_at.spec_grace_expired(last.at));
        assert(!(step_at(sup, watch, seen, n - 1) is Kill));
    }
}

/// An exit that is seen before any probe has found the grace period over
/// ends the stop: after the probe that shows it the stop is over without a
/// forceful signal, and a stop that began open holds no child.
proof fn lemma_exit_ends_stop(sup: Supervisor, watch: Shutdown, seen: Seq<Observation>, k: int)
    requires
        0 <= k < seen.len(),
        seen[k].status.spec_is_exit(),
        forall|i: int|
            0 <= i < k ==> !watch.signalled_at.spec_grace_expired((#[trigger] seen[i]).at),
    ensures
        after_polls(sup, watch, seen, (k + 1) as nat).1.finished,
        !watch.finished ==> after_polls(sup, watch, seen, (k + 1) as nat).0.child is None,
        !(step_at(sup, watch, seen, k) is Kill),
{
    let before = after_polls(sup, watch, seen, k as nat);
    lemma_no_kill_in_grace(sup, watch, seen, k as nat);
    if before.1.finished && !watch.finished {
        lemma_finished_means_ended(sup, watch, seen, k as nat);
    }
}

/// A stop that began open and is over has either let its child go or
/// ordered the forceful signal for it.
proof fn lemma_finished_means_ended(
    sup: Supervisor,
    watch: Shutdown,
    seen: Seq<Observation>,
    n: nat,
)
    requires
        !watch.finished,
        n <= seen.len(),
        after_polls(sup, watch, seen, n).1.finished,
    ensures
        after_polls(sup, watch, seen, n).0.child is None || exists|i: int|
            0 <= i < n && #[trigger] step_at(sup, watch, seen, i) is Kill,
    decreases n,
{
    if n > 0 {
        let before = after_polls(sup, watch, seen, (n - 1) as nat);
        if before.1.finished {
            lemma_finished_means_ended(sup, watch, seen, (n - 1) as nat);
            if !(before.0.child is None) {
                let i = choose|i: int|
                    0 <= i < n - 1 && #[trigger] step_at(sup, watch, seen, i) is Kill;
                assert(0 <= i < n && step_at(sup, watch, seen, i) is Kill);
            }
        } else {
            let polled = stop_polled(before.0, before.1, seen[n - 1].status, seen[n - 1].at);
            if !(polled.0.child is None) {
                assert(step_at(sup, watch, seen, n - 1) is Kill);
            }
        }
    }
}

/// If the exit of the child is seen before any probe has found the grace
/// period over, the forceful signal is never ordered: not before the exit is
/// seen, not with it, and not by any step that a caller might still take
/// afterwards. The stop is over, and a stop that began open holds no child.
pub proof fn law_exit_in_grace_never_kills(
    sup: Supervisor,
    watch: Shutdown,
    seen: Seq<Observation>,
    k: int,
)
    requires
        0 <= k < seen.len(),
        seen[k].status.spec_is_exit(),
        forall|i: int|
            0 <= i < k ==> !watch.signalled_at.spec_grace_expired((#[trigger] seen[i]).at),
    ensures
        forall|j: int| 0 <= j < seen.len() ==> !(#[trigger] step_at(sup, watch, seen, j) is Kill),
        after_polls(sup, watch, seen, seen.len()).1.finished,
        !watch.finished ==> after_polls(sup, watch, seen, seen.len()).0.child is None,
{
    lemma_no_kill_in_grace(sup, watch, seen, k as nat);
    lemma_exit_ends_stop(sup, watch, seen, k);
    lemma_finished_stays(sup, watch, seen, (k + 1) as nat, seen.len());
    assert forall|j: int| 0 <= j < seen.len() implies !(#[trigger] step_at(sup, watch, seen, j)
        is Kill) by {
        if j > k {
            lemma_finished_stays(sup, watch, seen, (k + 1) as nat, (j + 1) as nat);
        }
    }
}

/// If the child has not exited when the grace period is found to be over,
/// the forceful signal is ordered for it with that probe, and only then:
/// every step before is `Wait`, every step after is `Done`, and the
/// supervisor still holds the child as it did.
pub proof fn law_grace_expiry_kills_once(
    sup: Supervisor,
    watch: Shutdown,
    seen: Seq<Observation>,
    k: int,
)
    requires
        sup.child is Some,
        !watch.finished,
        0 <= k < seen.len(),
        forall|i: int| 0 <= i <= k ==> !(#[trigger] seen[i]).status.spec_is_exit(),
        forall|i: int|
            0 <= i < k ==> !watch.signalled_at.spec_grace_expired((#[trigger] seen[i]).at),
        watch.signalled_at.spec_grace_expired(seen[k].at),
    ensures
        step_at(sup, watch, seen, k) == StopStep::Kill(
            SignalOrder { pid: sup.child->0.pid, signal: Signal::SIGKILL },
        ),
        forall|j: int| 0 <= j < k ==> #[trigger] step_at(sup, watch, seen, j) == StopStep::Wait,
        forall|j: int|
            k < j < seen.len() ==> #[trigger] step_at(sup, watch, seen, j) == StopStep::Done,
        after_polls(sup, watch, seen, seen.len()).0 == sup,
        after_polls(sup, watch, seen, seen.len()).1.finished,
{
    lemma_waits_in_grace(sup, watch, seen, k as nat);
    assert(!seen[k].status.spec_is_exit());
    assert(after_polls(sup, watch, seen, (k + 1) as nat).1.finished);
    lemma_finished_stays(sup, watch, seen, (k + 1) as nat, seen.len());
    assert forall|j: int| k < j < seen.len() implies #[trigger] step_at(sup, watch, seen, j)
        == StopStep::Done by {
        lemma_finished_stays(sup, watch, seen, (k + 1) as nat, (j + 1) as nat);
    }
}

/// Whatever is probed and whenever, one stop orders the forceful signal at
/// most once, and every step after that order is `Done`.
pub proof fn law_at_most_one_kill(
    sup: Supervisor,
    watch: Shutdown,
    seen: Seq<Observation>,
    i: int,
    j: int,
)
    requires
        0 <= i < j < seen.len(),
        step_at(sup, watch, seen, i) is Kill,
    ensures
        step_at(sup, watch, seen, j) == StopStep::Done,
{
    assert(after_polls(sup, watch, seen, (i + 1) as nat).1.finished);
    lemma_finished_stays(sup, watch, seen, (i + 1) as nat, (j + 1) as nat);
}

/// A stop never changes the lifecycle state of the supervisor.
pub proof fn law_stop_keeps_state(sup: Supervisor, watch: Shutdown, seen: Seq<Observation>, n: nat)
    requires
        n <= seen.len(),
    ensures
        after_polls(sup, watch, seen, n).0.state == sup.state,
        after_polls(sup, watch, seen, n).0.has_started == sup.has_started,
        sup.wf() ==> after_polls(sup, watch, seen, n).0.wf(),
    decreases n,
{
    if n > 0 {
        law_stop_keeps_state(sup, watch, seen, (n - 1) as nat);
    }
}

} // verus!
