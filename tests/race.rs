use tower_timeout::error::{unify, Error, TimeoutError};
use tower_timeout::race::{drive, settle_call, settle_timer, Progress};
use tower_timeout::run::{replay, Completion};
use tower_timeout::span::Span;

fn ms(v: &[u64]) -> Vec<Span> {
    v.iter().map(|&m| Span::from_millis(m)).collect()
}

#[test]
fn success_within_deadline_keeps_value() {
    let call = Completion { at: Span::from_millis(10), result: Ok::<&str, &str>("hello") };
    let r = replay(Span::from_millis(50), Some(call), &ms(&[0, 4, 10]));
    assert_eq!(r, Progress::Ready(Ok("hello")));
}

#[test]
fn never_resolving_call_times_out_at_deadline() {
    let early = replay::<(), ()>(Span::from_millis(20), None, &ms(&[0, 10, 19]));
    assert_eq!(early, Progress::Pending);
    let r = replay::<(), ()>(Span::from_millis(20), None, &ms(&[0, 10, 19, 20]));
    assert_eq!(r, Progress::Ready(Err(Error::Timeout(TimeoutError))));
}

#[test]
fn failing_call_forwards_underlying_error() {
    let call = Completion { at: Span::from_millis(5), result: Err::<(), &str>("bad request") };
    let r = replay(Span::from_millis(50), Some(call), &ms(&[0, 5]));
    assert_eq!(r, Progress::Ready(Err(Error::Underlying("bad request"))));
}

#[test]
fn zero_duration_ready_call_wins_first_step() {
    let call = Completion { at: Span::zero(), result: Ok::<u32, ()>(42) };
    let r = replay(Span::zero(), Some(call), &ms(&[0]));
    assert_eq!(r, Progress::Ready(Ok(42)));
}

#[test]
fn zero_duration_pending_call_times_out_first_step() {
    let call = Completion { at: Span::from_millis(1), result: Ok::<u32, ()>(42) };
    let r = replay(Span::zero(), Some(call), &ms(&[0, 1]));
    assert_eq!(r, Progress::Ready(Err(Error::Timeout(TimeoutError))));
}

#[test]
fn tie_at_deadline_goes_to_call() {
    let call = Completion { at: Span::from_millis(50), result: Ok::<&str, ()>("late but on time") };
    let r = replay(Span::from_millis(50), Some(call), &ms(&[0, 50]));
    assert_eq!(r, Progress::Ready(Ok("late but on time")));
    let failed = Completion { at: Span::from_millis(50), result: Err::<(), &str>("boom") };
    let r = replay(Span::from_millis(50), Some(failed), &ms(&[50]));
    assert_eq!(r, Progress::Ready(Err(Error::Underlying("boom"))));
}

#[test]
fn late_drive_after_both_finished_goes_to_call() {
    let call = Completion { at: Span::from_millis(25), result: Ok::<u8, ()>(7) };
    let r = replay(Span::from_millis(20), Some(call), &ms(&[0, 30]));
    assert_eq!(r, Progress::Ready(Ok(7)));
}

#[test]
fn call_finishing_after_deadline_times_out() {
    let call = Completion { at: Span::from_millis(25), result: Ok::<u8, ()>(7) };
    let r = replay(Span::from_millis(20), Some(call), &ms(&[0, 21, 30]));
    assert_eq!(r, Progress::Ready(Err(Error::Timeout(TimeoutError))));
}

#[test]
fn resolution_is_not_changed_by_later_steps() {
    let a = Completion { at: Span::from_millis(3), result: Ok::<u8, ()>(1) };
    let b = Completion { at: Span::from_millis(3), result: Ok::<u8, ()>(1) };
    let short = replay(Span::from_millis(10), Some(a), &ms(&[0, 3]));
    let long = replay(Span::from_millis(10), Some(b), &ms(&[0, 3, 10, 20]));
    assert_eq!(short, long);
}

#[test]
fn no_steps_no_outcome() {
    let call = Completion { at: Span::zero(), result: Ok::<u8, ()>(1) };
    assert_eq!(replay(Span::zero(), Some(call), &Vec::new()), Progress::Pending);
}

#[test]
fn settle_call_finished_decides() {
    assert_eq!(settle_call::<u8, &str>(Progress::Ready(Ok(5))), Some(Ok(5)));
    assert_eq!(
        settle_call::<u8, &str>(Progress::Ready(Err("e"))),
        Some(Err(Error::Underlying("e")))
    );
    assert_eq!(settle_call::<u8, &str>(Progress::Pending), None);
}

#[test]
fn settle_timer_elapsed_times_out() {
    assert_eq!(
        settle_timer::<u8, ()>(Progress::Ready(())),
        Progress::Ready(Err(Error::Timeout(TimeoutError)))
    );
    assert_eq!(settle_timer::<u8, ()>(Progress::Pending), Progress::Pending);
}

#[test]
fn drive_checks_call_before_timer() {
    assert_eq!(drive::<u8, ()>(Progress::Ready(Ok(9)), Progress::Ready(())), Progress::Ready(Ok(9)));
    assert_eq!(
        drive::<u8, ()>(Progress::Pending, Progress::Ready(())),
        Progress::Ready(Err(Error::Timeout(TimeoutError)))
    );
    assert_eq!(drive::<u8, ()>(Progress::Pending, Progress::Pending), Progress::Pending);
}

#[test]
fn unify_wraps_only_errors() {
    assert_eq!(unify::<u8, &str>(Ok(3)), Ok(3));
    assert_eq!(unify::<u8, &str>(Err("x")), Err(Error::Underlying("x")));
}
