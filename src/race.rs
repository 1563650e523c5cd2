//! One drive step of the race between an in-flight call and a deadline timer.
//!
//! A drive step first advances the call. If the call has finished, its result
//! is final and the timer is not looked at: this order is the tie-break. Only
//! when the call is still running is the timer advanced; if it has elapsed the
//! step ends in a timeout, and otherwise the step reports that it must be
//! driven again.
use vstd::prelude::*;

use crate::error::{spec_unify, unify, Error, TimeoutError};

verus! {

/// What advancing an asynchronous operation reported.
#[derive(Clone, Copy, Debug, PartialEq, Eq)]
pub enum Progress<T> {
    /// The operation has finished with this output.
    Ready(T),
    /// The operation has not finished yet.
    Pending,
}

/// The outcome of one drive step, given what the call reported and whether
/// the timer, if it were advanced, would report that it has elapsed.
pub open spec fn drive_step<R, E>(call: Progress<Result<R, E>>, timer_elapsed: bool) -> Progress<
    Result<R, Error<E>>,
> {
    match call {
        Progress::Ready(r) => Progress::Ready(spec_unify(r)),
        Progress::Pending => if timer_elapsed {
            Progress::Ready(Err(Error::Timeout(TimeoutError)))
        } else {
            Progress::Pending
        },
    }
}

/// The first half of a drive step, once the call has been advanced: the final
/// result when the call has finished, or `None` when the timer must be advanced
/// next. A finished call decides the step whatever the timer would report.
pub fn settle_call<R, E>(call: Progress<Result<R, E>>) -> (r: Option<Result<R, Error<E>>>)
    ensures
        match call {
            Progress::Ready(res) => r == Some(spec_unify(res)),
            Progress::Pending => r is None,
        },
        r matches Some(u) ==> forall|timer_elapsed: bool|
            #[trigger] drive_step(call, timer_elapsed) == Progress::Ready(u),
{
    match call {
        Progress::Ready(res) => Some(unify(res)),
        Progress::Pending => None,
    }
}

/// The second half of a drive step, once the call was found still running and
/// the timer has been advanced: a timeout if the timer has elapsed, otherwise
/// a request to be driven again.
pub fn settle_timer<R, E>(timer: Progress<()>) -> (r: Progress<Result<R, Error<E>>>)
    ensures
        r == drive_step(Progress::<Result<R, E>>::Pending, timer is Ready),
{
    match timer {
        Progress::Ready(()) => Progress::Ready(Err(Error::timeout())),
        Progress::Pending => Progress::Pending,
    }
}

/// A whole drive step on two observations at once: the call's report, and
/// what the timer reports if it is advanced. The timer's report is used only
/// when the call is still running.
pub fn drive<R, E>(call: Progress<Result<R, E>>, timer: Progress<()>) -> (r: Progress<
    Result<R, Error<E>>,
>)
    ensures
        r == drive_step(call, timer is Ready),
{
    match settle_call(call) {
        Some(u) => Progress::Ready(u),
        None => settle_timer(timer),
    }
}

} // verus!
