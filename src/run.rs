//! A call race on a virtual clock, from the call's start to its resolution.
//!
//! Time is counted from the moment the decorator was invoked: the call and the
//! timer both start then. The wrapped call may finish at some instant with a
//! result, or never; the timer elapses at every instant at or past the
//! decorator's duration. The scheduler drives the race at a sequence of
//! instants, and the race resolves at the first drive step that settles it.
use vstd::prelude::*;

use crate::error::Error;
use crate::race::{drive, drive_step, Progress};
use crate::span::Span;

verus! {

/// The wrapped call finishing at instant `at` with `result`.
#[derive(Debug, PartialEq, Eq)]
pub struct Completion<R, E> {
    pub at: Span,
    pub result: Result<R, E>,
}

/// What advancing the call reports at instant `now`.
pub open spec fn call_progress<R, E>(call: Option<Completion<R, E>>, now: nat) -> Progress<
    Result<R, E>,
> {
    match call {
        Some(c) => if c.at@ <= now {
            Progress::Ready(c.result)
        } else {
            Progress::Pending
        },
        None => Progress::Pending,
    }
}

/// Whether a timer armed for `duration` has elapsed at instant `now`.
pub open spec fn timer_elapsed(duration: Span, now: nat) -> bool {
    now >= duration@
}

/// The outcome of the drive step at instant `now`.
pub open spec fn step_at<R, E>(duration: Span, call: Option<Completion<R, E>>, now: nat) -> Progress<
    Result<R, Error<E>>,
> {
    drive_step(call_progress(call, now), timer_elapsed(duration, now))
}

/// The outcome of driving the race at the instants `steps`, in order: the
/// outcome of the first step that settles it, or `Pending` when none does.
pub open spec fn race_run<R, E>(duration: Span, call: Option<Completion<R, E>>, steps: Seq<Span>) -> Progress<
    Result<R, Error<E>>,
>
    decreases steps.len(),
{
    if steps.len() == 0 {
        Progress::Pending
    } else if step_at(duration, call, steps[0]@) is Ready {
        step_at(duration, call, steps[0]@)
    } else {
        race_run(duration, call, steps.drop_first())
    }
}

/// Drives a race against a timer armed for `duration`, with the wrapped call
/// finishing as `call` says, at the instants `steps`; returns the race's
/// outcome, or `Pending` if no step settles it.
pub fn replay<R, E>(duration: Span, call: Option<Completion<R, E>>, steps: &Vec<Span>) -> (r: Progress<
    Result<R, Error<E>>,
>)
    ensures
        r == race_run(duration, call, steps@),
{
    let mut pending = call;
    let mut i: usize = 0;
    assert(steps@.subrange(0, steps@.len() as int) =~= steps@);
    while i < steps.len()
        invariant
            i <= steps@.len(),
            pending == call,
            race_run(duration, call, steps@) == race_run(
                duration,
                call,
                steps@.subrange(i as int, steps@.len() as int),
            ),
        decreases steps@.len() - i,
    {
        let now = steps[i];
        let finished = match &pending {
            Some(c) => now.covers(&c.at),
            None => false,
        };
        let timer = if now.covers(&duration) {
            Progress::Ready(())
        } else {
            Progress::Pending
        };
        let rest = Ghost(steps@.subrange(i as int, steps@.len() as int));
        assert(rest@[0] == steps@[i as int]);
        if finished {
            match pending {
                Some(c) => {
                    assert(call_progress(call, now@) == Progress::Ready(c.result));
                    return drive(Progress::Ready(c.result), timer);
                },
                None => {},
            }
        }
        assert(call_progress(call, now@) is Pending);
        let outcome = drive(Progress::<Result<R, E>>::Pending, timer);
        if let Progress::Ready(_) = outcome {
            return outcome;
        }
        assert(rest@.drop_first() =~= steps@.subrange(i + 1, steps@.len() as int));
        i = i + 1;
    }
    Progress::Pending
}

} // verus!
