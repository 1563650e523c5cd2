//! What the race guarantees, stated over the step and run models and proved.
use vstd::prelude::*;

use crate::error::{spec_unify, Error, TimeoutError};
use crate::race::{drive_step, Progress};
use crate::run::{call_progress, race_run, step_at, Completion};
use crate::span::Span;

verus! {

/// A call that finishes no later than the deadline decides the race: once the
/// scheduler drives the race at or after the call's completion, the outcome is
/// the call's own result with its error, if any, made `Underlying`.
pub proof fn lemma_finished_in_time<R, E>(
    duration: Span,
    call: Completion<R, E>,
    steps: Seq<Span>,
)
    requires
        call.at@ <= duration@,
        exists|i: int| 0 <= i < steps.len() && #[trigger] steps[i]@ >= call.at@,
    ensures
        race_run(duration, Some(call), steps) == Progress::Ready(spec_unify(call.result)),
    decreases steps.len(),
{
    let i = choose|i: int| 0 <= i < steps.len() && #[trigger] steps[i]@ >= call.at@;
    if steps[0]@ < call.at@ {
        let rest = steps.drop_first();
        assert(rest[i - 1] == steps[i]);
        lemma_finished_in_time(duration, call, rest);
    }
}

/// A call that succeeds before the deadline yields its value untouched.
pub proof fn lemma_success_preserved<R, E>(duration: Span, at: Span, value: R, steps: Seq<Span>)
    requires
        at@ < duration@,
        exists|i: int| 0 <= i < steps.len() && #[trigger] steps[i]@ >= at@,
    ensures
        race_run(duration, Some((Completion::<R, E> { at, result: Ok(value) })), steps)
            == Progress::<Result<R, Error<E>>>::Ready(Ok(value)),
{
    lemma_finished_in_time(duration, Completion::<R, E> { at, result: Ok(value) }, steps);
}

/// A call that fails before the deadline yields its error, kept verbatim as
/// `Underlying`.
pub proof fn lemma_error_forwarded<R, E>(duration: Span, at: Span, error: E, steps: Seq<Span>)
    requires
        at@ < duration@,
        exists|i: int| 0 <= i < steps.len() && #[trigger] steps[i]@ >= at@,
    ensures
        race_run(duration, Some((Completion::<R, E> { at, result: Err(error) })), steps)
            == Progress::<Result<R, Error<E>>>::Ready(Err(Error::Underlying(error))),
{
    lemma_finished_in_time(duration, Completion::<R, E> { at, result: Err(error) }, steps);
}

/// When a drive step finds both the call finished and the timer elapsed, the
/// call's outcome wins, success or error, and never the timeout.
pub proof fn lemma_call_wins_tie<R, E>(duration: Span, call: Completion<R, E>, now: nat)
    requires
        call.at@ <= now,
        duration@ <= now,
    ensures
        step_at(duration, Some(call), now) == Progress::Ready(spec_unify(call.result)),
        forall|timer_elapsed: bool|
            #[trigger] drive_step(Progress::Ready(call.result), timer_elapsed) == Progress::<
                Result<R, Error<E>>,
            >::Ready(spec_unify(call.result)),
{
}

/// A call that has not finished by the first drive step at or past the
/// deadline loses the race: on a clock that never runs backwards, the race
/// resolves to the timeout at that step.
pub proof fn lemma_timeout_fires<R, E>(
    duration: Span,
    call: Option<Completion<R, E>>,
    steps: Seq<Span>,
    k: int,
)
    requires
        0 <= k < steps.len(),
        forall|i: int, j: int| 0 <= i <= j < steps.len() ==> steps[i]@ <= steps[j]@,
        steps[k]@ >= duration@,
        forall|i: int| 0 <= i < k ==> #[trigger] steps[i]@ < duration@,
        call matches Some(c) ==> c.at@ > steps[k]@,
    ensures
        race_run(duration, call, steps) == Progress::<Result<R, Error<E>>>::Ready(
            Err(Error::Timeout(TimeoutError)),
        ),
    decreases k,
{
    assert(steps[0]@ <= steps[k]@);
    if k > 0 {
        let rest = steps.drop_first();
        assert forall|i: int| 0 <= i < k - 1 implies #[trigger] rest[i]@ < duration@ by {
            assert(rest[i] == steps[i + 1]);
        }
        assert forall|i: int, j: int| 0 <= i <= j < rest.len() implies rest[i]@ <= rest[j]@ by {
            assert(rest[i] == steps[i + 1]);
            assert(rest[j] == steps[j + 1]);
        }
        lemma_timeout_fires(duration, call, rest, k - 1);
    }
}

/// The index of the drive step at which a race that timed out resolved.
proof fn timeout_step<R, E>(
    duration: Span,
    call: Option<Completion<R, E>>,
    steps: Seq<Span>,
) -> (k: int)
    requires
        race_run(duration, call, steps) == Progress::<Result<R, Error<E>>>::Ready(
            Err(Error::Timeout(TimeoutError)),
        ),
    ensures
        0 <= k < steps.len(),
        steps[k]@ >= duration@,
        call_progress(call, steps[k]@) is Pending,
        race_run(duration, call, steps.take(k)) is Pending,
    decreases steps.len(),
{
    if step_at(duration, call, steps[0]@) is Ready {
        assert(steps.take(0).len() == 0);
        0
    } else {
        let rest = steps.drop_first();
        let k = timeout_step(duration, call, rest);
        let prefix = steps.take(k + 1);
        assert(prefix[0] == steps[0]);
        assert(prefix.drop_first() =~= rest.take(k));
        assert(rest[k] == steps[k + 1]);
        k + 1
    }
}

/// A timeout is never observed early: the step that resolves a race to the
/// timeout comes at or after the deadline, finds the call still running, and
/// no earlier step resolved anything.
pub proof fn lemma_timeout_never_early<R, E>(
    duration: Span,
    call: Option<Completion<R, E>>,
    steps: Seq<Span>,
)
    requires
        race_run(duration, call, steps) == Progress::<Result<R, Error<E>>>::Ready(
            Err(Error::Timeout(TimeoutError)),
        ),
    ensures
        exists|k: int|
            0 <= k < steps.len() && #[trigger] steps[k]@ >= duration@ && call_progress(
                call,
                steps[k]@,
            ) is Pending && race_run(duration, call, steps.take(k)) is Pending,
{
    let k = timeout_step(duration, call, steps);
    assert(steps[k]@ >= duration@);
}

/// With a zero duration the first drive step decides: the call's outcome if it
/// has already finished, and the timeout otherwise.
pub proof fn lemma_zero_duration<R, E>(
    duration: Span,
    call: Option<Completion<R, E>>,
    steps: Seq<Span>,
)
    requires
        duration@ == 0,
        steps.len() > 0,
    ensures
        race_run(duration, call, steps) == match call_progress(call, steps[0]@) {
            Progress::Ready(r) => Progress::Ready(spec_unify(r)),
            Progress::Pending => Progress::<Result<R, Error<E>>>::Ready(
                Err(Error::Timeout(TimeoutError)),
            ),
        },
{
}

/// A race resolves once: the first resolution stands whatever steps follow,
/// and a race that has not resolved has produced nothing, so what follows
/// depends on the later steps alone.
pub proof fn lemma_resolution_is_final<R, E>(
    duration: Span,
    call: Option<Completion<R, E>>,
    steps: Seq<Span>,
    later: Seq<Span>,
)
    ensures
        race_run(duration, call, steps) is Ready ==> race_run(duration, call, steps + later)
            == race_run(duration, call, steps),
        race_run(duration, call, steps) is Pending ==> race_run(duration, call, steps + later)
            == race_run(duration, call, later),
    decreases steps.len(),
{
    if steps.len() == 0 {
        assert(steps + later =~= later);
    } else {
        assert((steps + later)[0] == steps[0]);
        assert((steps + later).drop_first() =~= steps.drop_first() + later);
        lemma_resolution_is_final(duration, call, steps.drop_first(), later);
    }
}

} // verus!
