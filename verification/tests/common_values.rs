use supervisor::clock::{Instant, GRACE_NANOS, NANOS_PER_SECOND};
use supervisor::process::{ChildHandle, ChildStatus, Signal, SignalOrder};
use supervisor::error::SupError;
use supervisor::state::ProcessState;

#[test]
fn state_names_are_lowercase() {
    assert_eq!(ProcessState::Down.name(), "down");
    assert_eq!(ProcessState::Up.name(), "up");
    assert_eq!(ProcessState::Start.name(), "start");
    assert_eq!(ProcessState::Restart.name(), "restart");
    assert_eq!(ProcessState::Restart.to_string(), String::from("restart"));
}

#[test]
fn every_state_but_down_is_healthy() {
    assert!(!ProcessState::Down.is_healthy());
    assert!(ProcessState::Up.is_healthy());
    assert!(ProcessState::Start.is_healthy());
    assert!(ProcessState::Restart.is_healthy());
}

#[test]
fn grace_is_eight_seconds() {
    assert_eq!(NANOS_PER_SECOND, 1_000_000_000);
    assert_eq!(GRACE_NANOS, 8 * NANOS_PER_SECOND);
}

#[test]
fn since_is_the_difference_or_zero() {
    let early = Instant::new(1_000);
    let late = Instant::new(4_500);
    assert_eq!(late.since(early), 3_500);
    assert_eq!(early.since(late), 0);
    assert_eq!(early.since(early), 0);
    assert_eq!(Instant::new(u64::MAX).since(Instant::new(0)), u64::MAX);
}

#[test]
fn grace_expires_strictly_after_eight_seconds() {
    let signalled = Instant::new(500);
    assert!(!signalled.grace_expired(Instant::new(500)));
    assert!(!signalled.grace_expired(Instant::new(500 + GRACE_NANOS - 1)));
    assert!(!signalled.grace_expired(Instant::new(500 + GRACE_NANOS)));
    assert!(signalled.grace_expired(Instant::new(500 + GRACE_NANOS + 1)));
    assert!(!signalled.grace_expired(Instant::new(0)));
    assert!(Instant::new(0).grace_expired(Instant::new(u64::MAX)));
    assert!(!Instant::new(u64::MAX).grace_expired(Instant::new(0)));
}

#[test]
fn elapsed_nanos_is_clipped_to_the_signed_range() {
    assert_eq!(Instant::new(5).elapsed_nanos(Instant::new(12)), 7);
    assert_eq!(Instant::new(12).elapsed_nanos(Instant::new(5)), 0);
    assert_eq!(Instant::new(0).elapsed_nanos(Instant::new(i64::MAX as u64)), i64::MAX);
    assert_eq!(Instant::new(0).elapsed_nanos(Instant::new(i64::MAX as u64 + 1)), i64::MAX);
    assert_eq!(Instant::new(0).elapsed_nanos(Instant::new(u64::MAX)), i64::MAX);
    assert_eq!(Instant::new(1).elapsed_nanos(Instant::new(i64::MAX as u64)), i64::MAX - 1);
}

#[test]
fn elapsed_text_is_an_iso_duration() {
    let entered = Instant::new(2_000_000_000);
    assert_eq!(entered.elapsed_text(Instant::new(10_000_000_000)), "PT8S");
    assert_eq!(entered.elapsed_text(Instant::new(2_000_000_000)), "PT0S");
    assert_eq!(entered.elapsed_text(Instant::new(2_500_000_000)), "PT0.500S");
    assert_eq!(entered.elapsed_text(Instant::new(2_000_000_001)), "PT0.000000001S");
    assert_eq!(entered.elapsed_text(Instant::new(2_000_000_000 + 90_061 * NANOS_PER_SECOND)), "P1DT3661S");
}

#[test]
fn elapsed_text_of_an_earlier_reading_is_zero() {
    assert_eq!(Instant::new(9_000).elapsed_text(Instant::new(10)), "PT0S");
}

#[test]
fn elapsed_text_clips_spans_beyond_the_signed_range() {
    let clipped = Instant::new(0).elapsed_text(Instant::new(u64::MAX));
    let largest = Instant::new(0).elapsed_text(Instant::new(i64::MAX as u64));
    assert_eq!(clipped, largest);
    assert_eq!(largest, "P106751DT85636.854775807S");
}

#[test]
fn the_steady_clock_does_not_run_backwards_here() {
    let first = Instant::now();
    let second = Instant::now();
    assert!(second.nanos >= first.nanos);
}

#[test]
fn child_handle_gives_its_identifier() {
    let child = ChildHandle::new(4242);
    assert_eq!(child.id(), 4242);
    assert_eq!(child, ChildHandle { pid: 4242 });
}

#[test]
fn only_exits_count_as_exits() {
    assert!(!ChildStatus::Running.is_exit());
    assert!(!ChildStatus::QueryError.is_exit());
    assert!(ChildStatus::ExitedCode(0).is_exit());
    assert!(ChildStatus::ExitedCode(137).is_exit());
    assert!(ChildStatus::ExitedSignal(9).is_exit());
}

#[test]
fn an_exit_is_classified_by_signal_first() {
    assert_eq!(ChildStatus::exited(Some(3), None), ChildStatus::ExitedCode(3));
    assert_eq!(ChildStatus::exited(None, Some(15)), ChildStatus::ExitedSignal(15));
    assert_eq!(ChildStatus::exited(Some(3), Some(15)), ChildStatus::ExitedSignal(15));
    assert_eq!(ChildStatus::exited(None, None), ChildStatus::QueryError);
    assert_eq!(ChildStatus::exited(Some(-1), None), ChildStatus::ExitedCode(-1));
}

#[test]
fn an_undelivered_signal_fails_the_operation() {
    let order = SignalOrder { pid: 7, signal: Signal::SIGTERM };
    assert_eq!(order.outcome(true), Ok(()));
    assert_eq!(order.outcome(false), Err(SupError::SignalFailed));
}
