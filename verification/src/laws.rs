//! What holds of a supervisor over whole sequences of operations, whatever
//! the outside world answers. Each law is stated over the functions that the
//! operations' own contracts are written in.

use vstd::prelude::*;
use crate::clock::Instant;
use crate::decimal::{decimal, lemma_decimal_round_trip, parse_u32};
use crate::process::{ChildHandle, ChildStatus, Signal};
use crate::shutdown::{
    after_polls, law_exit_in_grace_never_kills, law_stop_keeps_state, stop_polled, Observation,
    Shutdown,
};
use crate::state::ProcessState;
use crate::supervisor::{SpawnOrder, Supervisor};

verus! {

/// Starting a supervisor that is down and holds no child passes through
/// `Start` and, once the spawn has succeeded, leaves it `Up`, started,
/// holding the spawned child, with a pidfile that holds exactly the child's
/// identifier.
pub proof fn law_fresh_start(sup: Supervisor, order: SpawnOrder, pid: u32, t0: Instant, t1: Instant)
    requires
        sup.state is Down,
        sup.child is None,
    ensures
        sup.start_begun(t0).state is Start,
        sup.start_begun(t0).child is None,
        ({
            let up = sup.start_begun(t0).start_finished(order, Some(pid), t1);
            &&& up.state is Up
            &&& up.state_entered == t1
            &&& up.has_started
            &&& up.child == Some(ChildHandle { pid })
            &&& up.pidfile_contents() == Some(decimal(pid as nat))
            &&& parse_u32(decimal(pid as nat)) == Some(pid)
        }),
{
    lemma_decimal_round_trip(pid);
}

/// A spawn that fails leaves no trace: the supervisor is again exactly as
/// it was before it set out to start.
pub proof fn law_failed_start_changes_nothing(sup: Supervisor, order: SpawnOrder, t0: Instant, t1: Instant)
    requires
        order.is_for(&sup),
    ensures
        sup.start_begun(t0).start_finished(order, None, t1) == sup,
{
}

/// Setting out to start while a child is held changes nothing: a
/// supervisor that is `Up` stays `Up`, since when it was.
pub proof fn law_second_start_is_idle(sup: Supervisor, now: Instant)
    requires
        sup.child is Some,
    ensures
        sup.start_begun(now) == sup,
{
}

/// A supervisor without a child has nothing to signal, and a stop of it is
/// over with the first step, without a forceful signal and without a change
/// to the supervisor.
pub proof fn law_stop_without_child(
    sup: Supervisor,
    signal: Signal,
    status: ChildStatus,
    t0: Instant,
    t1: Instant,
)
    requires
        sup.child is None,
    ensures
        sup.signal_order(signal) is None,
        stop_polled(sup, Shutdown::spec_begin_at(t0), status, t1).0 == sup,
        stop_polled(sup, Shutdown::spec_begin_at(t0), status, t1).1.finished,
        stop_polled(sup, Shutdown::spec_begin_at(t0), status, t1).2 is Done,
{
}

/// A probe that shows no exit, or that comes in while no child is held,
/// changes nothing, not even the instant at which the state was entered.
pub proof fn law_idle_probe_changes_nothing(sup: Supervisor, status: ChildStatus, now: Instant)
    requires
        sup.child is None || !status.spec_is_exit(),
    ensures
        sup.checked(status, now) == sup,
{
}

/// A probe that shows the exit of the held child lets the child go and
/// keeps the lifecycle state; only a supervisor that is down has the
/// instant of its state renewed.
pub proof fn law_exit_lets_child_go(sup: Supervisor, status: ChildStatus, now: Instant)
    requires
        sup.child is Some,
        status.spec_is_exit(),
    ensures
        sup.checked(status, now).child is None,
        sup.checked(status, now).state == sup.state,
        sup.checked(status, now).has_started == sup.has_started,
        sup.checked(status, now).state_entered == if sup.state is Down {
            now
        } else {
            sup.state_entered
        },
{
}

/// Once a spawn has succeeded, `has_started` stays set through every
/// operation.
pub proof fn law_started_is_for_good(
    sup: Supervisor,
    state: ProcessState,
    status: ChildStatus,
    order: SpawnOrder,
    spawned: Option<u32>,
    watch: Shutdown,
    now: Instant,
)
    requires
        sup.has_started,
    ensures
        sup.entered(state, now).has_started,
        sup.checked(status, now).has_started,
        sup.start_begun(now).has_started,
        sup.start_finished(order, spawned, now).has_started,
        stop_polled(sup, watch, status, now).0.has_started,
{
}

/// Every operation keeps the invariant that a child is only held by a
/// supervisor that has started.
pub proof fn law_operations_keep_wf(
    sup: Supervisor,
    state: ProcessState,
    status: ChildStatus,
    order: SpawnOrder,
    spawned: Option<u32>,
    watch: Shutdown,
    now: Instant,
)
    requires
        sup.wf(),
    ensures
        sup.entered(state, now).wf(),
        sup.checked(status, now).wf(),
        sup.start_begun(now).wf(),
        sup.start_finished(order, spawned, now).wf(),
        stop_polled(sup, watch, status, now).0.wf(),
{
}

/// A restart of a running service ends `Up`, if the exit of the old child
/// is seen before any probe has found the grace period over and the spawn
/// of the new one succeeds: the supervisor is in `Restart` while it stops,
/// holds no child when the stop is over, passes through `Start`, and is `Up`
/// with the new child in the end.
pub proof fn law_restart_ends_up(
    sup: Supervisor,
    seen: Seq<Observation>,
    k: int,
    order: SpawnOrder,
    pid: u32,
    t0: Instant,
    t1: Instant,
    t2: Instant,
    t3: Instant,
)
    requires
        sup.child is Some,
        0 <= k < seen.len(),
        seen[k].status.spec_is_exit(),
        forall|i: int| 0 <= i < k ==> !t1.spec_grace_expired((#[trigger] seen[i]).at),
    ensures
        sup.entered(ProcessState::Restart, t0).state is Restart,
        sup.entered(ProcessState::Restart, t0).signal_order(Signal::SIGTERM) is Some,
        ({
            let stopped = after_polls(
                sup.entered(ProcessState::Restart, t0),
                Shutdown::spec_begin_at(t1),
                seen,
                seen.len(),
            ).0;
            let begun = stopped.start_begun(t2);
            let up = begun.start_finished(order, Some(pid), t3);
            &&& stopped.state is Restart
            &&& stopped.child is None
            &&& begun.state is Start
            &&& up.state is Up
            &&& up.child == Some(ChildHandle { pid })
            &&& up.has_started
        }),
{
    let restarting = sup.entered(ProcessState::Restart, t0);
    let watch = Shutdown::spec_begin_at(t1);
    law_exit_in_grace_never_kills(restarting, watch, seen, k);
    law_stop_keeps_state(restarting, watch, seen, seen.len());
}

/// A restart whose stop ends with the child still held, because the
/// forceful signal was ordered but the exit has not been seen yet, starts
/// nothing: the supervisor stays in `Restart` until the exit is taken in and
/// a start is asked for again.
pub proof fn law_restart_with_child_held_waits(
    sup: Supervisor,
    watch: Shutdown,
    seen: Seq<Observation>,
    t0: Instant,
    t2: Instant,
)
    requires
        after_polls(sup.entered(ProcessState::Restart, t0), watch, seen, seen.len()).0.child
            is Some,
    ensures
        ({
            let stopped = after_polls(
                sup.entered(ProcessState::Restart, t0),
                watch,
                seen,
                seen.len(),
            ).0;
            &&& stopped.start_begun(t2) == stopped
            &&& stopped.state is Restart
        }),
{
    law_stop_keeps_state(sup.entered(ProcessState::Restart, t0), watch, seen, seen.len());
}

/// Taking a service down twice in a row is safe: the supervisor is `Down`
/// from the moment each call begins and through both stops, whatever the
/// probes show.
pub proof fn law_down_twice(
    sup: Supervisor,
    first_watch: Shutdown,
    first_seen: Seq<Observation>,
    second_watch: Shutdown,
    second_seen: Seq<Observation>,
    t0: Instant,
    t1: Instant,
)
    ensures
        ({
            let first = sup.entered(ProcessState::Down, t0);
            let after_first = after_polls(first, first_watch, first_seen, first_seen.len()).0;
            let second = after_first.entered(ProcessState::Down, t1);
            let after_second = after_polls(second, second_watch, second_seen, second_seen.len()).0;
            &&& first.state is Down
            &&& after_first.state is Down
            &&& second.state is Down
            &&& after_second.state is Down
            &&& after_first.child is None ==> second.signal_order(Signal::SIGTERM) is None
        }),
{
    let first = sup.entered(ProcessState::Down, t0);
    law_stop_keeps_state(first, first_watch, first_seen, first_seen.len());
    let after_first = after_polls(first, first_watch, first_seen, first_seen.len()).0;
    let second = after_first.entered(ProcessState::Down, t1);
    law_stop_keeps_state(second, second_watch, second_seen, second_seen.len());
}

/// Right after a successful start, what the pidfile is given to hold reads
/// back as the identifier of the child that the supervisor holds.
pub proof fn law_pidfile_round_trip(sup: Supervisor, order: SpawnOrder, pid: u32, now: Instant)
    ensures
        ({
            let up = sup.start_finished(order, Some(pid), now);
            &&& up.child matches Some(child)
            &&& up.pidfile_contents() matches Some(text)
            &&& parse_u32(text) == Some(child.pid)
        }),
{
    lemma_decimal_round_trip(pid);
}

} // verus!
