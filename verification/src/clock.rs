//! The steady clock, read as plain nanoseconds, and the rendering of
//! elapsed time.

use vstd::prelude::*;

verus! {

/// Nanoseconds in one second.
pub const NANOS_PER_SECOND: u64 = 1_000_000_000;

/// How long a signalled process is given to exit before it is killed:
/// eight seconds, in nanoseconds.
pub const GRACE_NANOS: u64 = 8_000_000_000;

/// The text that the `time` crate's `Display` impl for `Duration` produces
/// for a duration of `nanos` nanoseconds, as made by
/// `Duration::nanoseconds`. It is an ISO 8601 duration such as `PT8S`.
pub uninterp spec fn duration_text(nanos: int) -> Seq<char>;

/// Reads the steady clock through `time::precise_time_ns`: nanoseconds
/// since an origin that the clock does not disclose. Nothing is claimed of
/// the value.
#[verifier::external_body]
fn steady_nanos() -> (nanos: u64) {
    time::precise_time_ns()
}

/// Renders a span of `nanos` nanoseconds by building a `time::Duration`
/// with `Duration::nanoseconds` and formatting it with its `Display` impl.
/// The contract only gives that text its name.
#[verifier::external_body]
fn format_duration(nanos: i64) -> (text: String)
    ensures
        text@ == duration_text(nanos as int),
{
    time::Duration::nanoseconds(nanos).to_string()
}

/// One reading of the steady clock, in nanoseconds since the clock's origin.
#[derive(Debug, Clone, Copy, PartialEq, Eq, Structural)]
pub struct Instant {
    pub nanos: u64,
}

impl Instant {
    /// The nanoseconds from `earlier` to `self`; zero where `self` is not
    /// later than `earlier`.
    pub open spec fn spec_since(&self, earlier: Instant) -> nat {
        if self.nanos >= earlier.nanos {
            (self.nanos - earlier.nanos) as nat
        } else {
            0
        }
    }

    /// Whether more than the grace period lies between `self`, the moment a
    /// process was signalled, and `now`.
    pub open spec fn spec_grace_expired(&self, now: Instant) -> bool {
        now.nanos - self.nanos > GRACE_NANOS
    }

    /// The nanoseconds elapsed from `self` to `now`, as a signed span: zero
    /// where `now` is not later, and `i64::MAX` where the span is beyond it.
    pub open spec fn spec_elapsed_nanos(&self, now: Instant) -> int {
        let span = now.spec_since(*self);
        if span > i64::MAX {
            i64::MAX as int
        } else {
            span as int
        }
    }

    /// The text for the time elapsed from `self` to `now`.
    pub open spec fn spec_elapsed_text(&self, now: Instant) -> Seq<char> {
        duration_text(self.spec_elapsed_nanos(now))
    }

    /// An instant at `nanos` nanoseconds on the steady clock.
    pub fn new(nanos: u64) -> (r: Instant)
        ensures
            r.nanos == nanos,
    {
        Instant { nanos }
    }

    /// The current reading of the steady clock.
    pub fn now() -> Instant {
        Instant { nanos: steady_nanos() }
    }

    /// The nanoseconds from `earlier` to `self`, zero where `self` is not
    /// later.
    pub fn since(&self, earlier: Instant) -> (span: u64)
        ensures
            span == self.spec_since(earlier),
    {
        if self.nanos >= earlier.nanos {
            self.nanos - earlier.nanos
        } else {
            0
        }
    }

    /// Whether the grace period that began at `self` is over at `now`.
    pub fn grace_expired(&self, now: Instant) -> (expired: bool)
        ensures
            expired == self.spec_grace_expired(now),
    {
        now.nanos > self.nanos && now.nanos - self.nanos > GRACE_NANOS
    }

    /// The nanoseconds elapsed from `self` to `now`, as a signed span.
    pub fn elapsed_nanos(&self, now: Instant) -> (span: i64)
        ensures
            span == self.spec_elapsed_nanos(now),
    {
        let span: u64 = now.since(*self);
        if span > 0x7fff_ffff_ffff_ffff {
            0x7fff_ffff_ffff_ffff
        } else {
            span as i64
        }
    }

    /// The time elapsed from `self` to `now`, as text.
    pub fn elapsed_text(&self, now: Instant) -> (text: String)
        ensures
            text@ == self.spec_elapsed_text(now),
    {
        format_duration(self.elapsed_nanos(now))
    }
}

} // verus!
