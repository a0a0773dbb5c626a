//! What the reseed procedures decide when the seed source has answered.
//!
//! The infallible procedure makes up to [`MAX_ATTEMPTS`] attempts and never
//! reports a failure: it ends reseeded, delayed or skipped. The fallible
//! procedure makes one attempt and reports a failure under one of two kinds.
//! Both are written here as functions of the seed source's answers, so that
//! they are verified for every answer.

use crate::budget::Countdown;
use crate::kind::FailureKind;
use crate::source::{should_retry, should_wait};
use vstd::prelude::*;

verus! {

/// The most attempts that the infallible procedure makes in one run.
pub const MAX_ATTEMPTS: u32 = 5;

/// What one attempt to rebuild the generator came to.
#[derive(Clone, Copy, Debug, PartialEq, Eq, Structural)]
pub enum Attempt {
    /// The generator was rebuilt.
    Seeded,
    /// The seed source failed with a failure of this kind.
    Failed(FailureKind),
}

/// How a run of the infallible procedure ends.
#[derive(Clone, Copy, Debug, PartialEq, Eq, Structural)]
pub enum ReseedOutcome {
    /// The generator was rebuilt; a full budget lies ahead.
    Reseeded,
    /// The seed source was not ready; the stale generator goes on, and the
    /// next attempt is due after a small part of the budget.
    Delayed,
    /// The seed source failed for good, or too often; the stale generator
    /// goes on for a full budget.
    Skipped,
}

/// What the infallible procedure does after an attempt.
#[derive(Clone, Copy, Debug, PartialEq, Eq, Structural)]
pub enum Step {
    /// The run ends, with this outcome.
    Finish(ReseedOutcome),
    /// Another attempt is made at once.
    Retry,
}

/// The step that follows the attempt `attempt`, the `number`-th of its run
/// (counted from 1). Success ends the run. A failure of the wait class
/// delays; one of the retry class is retried while fewer than
/// `MAX_ATTEMPTS` attempts were made; every other failure, and the last
/// failure of the retry class, makes the run skip this cycle.
pub open spec fn step_after(attempt: Attempt, number: nat) -> Step {
    match attempt {
        Attempt::Seeded => Step::Finish(ReseedOutcome::Reseeded),
        Attempt::Failed(kind) => if kind.waits() {
            Step::Finish(ReseedOutcome::Delayed)
        } else if kind.retries() && number < MAX_ATTEMPTS {
            Step::Retry
        } else {
            Step::Finish(ReseedOutcome::Skipped)
        },
    }
}

/// Whether a run in which the seed source gives the answers `answers`, in
/// this order, makes exactly these attempts and ends with `outcome`: every
/// answer but the last is retried, and the last one ends the run.
pub open spec fn ends_with(answers: Seq<Attempt>, outcome: ReseedOutcome) -> bool {
    &&& answers.len() >= 1
    &&& forall|i: int|
        #![trigger answers[i]]
        0 <= i < answers.len() - 1 ==> step_after(answers[i], (i + 1) as nat) == Step::Retry
    &&& step_after(answers.last(), answers.len()) == Step::Finish(outcome)
}

/// The countdown that a run of the infallible procedure leaves behind when
/// it ends with `outcome`: the short stretch of a delay where the run was
/// delayed, the full threshold otherwise.
pub open spec fn settled(before: Countdown, outcome: ReseedOutcome) -> Countdown {
    if outcome == ReseedOutcome::Delayed {
        before.delayed()
    } else {
        before.reset()
    }
}

/// Decides what follows the attempt `attempt`, the `number`-th of its run.
/// Whether to wait or to retry is asked of `rand_core`.
pub fn decide(attempt: Attempt, number: u32) -> (step: Step)
    ensures
        step == step_after(attempt, number as nat),
{
    match attempt {
        Attempt::Seeded => Step::Finish(ReseedOutcome::Reseeded),
        Attempt::Failed(kind) => {
            if should_wait(kind) {
                Step::Finish(ReseedOutcome::Delayed)
            } else if should_retry(kind) && number < MAX_ATTEMPTS {
                Step::Retry
            } else {
                Step::Finish(ReseedOutcome::Skipped)
            }
        },
    }
}

/// Decides what the fallible procedure reports for a failure whose kind is
/// `cause`, and whether it gives up this cycle. `NotReady` and `Transient`
/// are reported as they are and nothing is given up; every other kind is
/// reported as `Transient`, and the cycle is skipped.
pub fn narrow(cause: FailureKind) -> (verdict: (FailureKind, bool))
    ensures
        verdict.0 == cause.narrowed(),
        verdict.1 == !cause.passed_on(),
{
    match cause {
        FailureKind::NotReady => (FailureKind::NotReady, false),
        FailureKind::Transient => (FailureKind::Transient, false),
        _ => (FailureKind::Transient, true),
    }
}

/// A run never makes more than `MAX_ATTEMPTS` attempts.
pub proof fn lemma_attempts_bounded(answers: Seq<Attempt>, outcome: ReseedOutcome)
    requires
        ends_with(answers, outcome),
    ensures
        1 <= answers.len() <= MAX_ATTEMPTS,
{
    if answers.len() > MAX_ATTEMPTS {
        let i = answers.len() - 2;
        assert(step_after(answers[i], (i + 1) as nat) == Step::Retry);
    }
}

/// The answers decide the outcome: one run cannot end in two ways.
pub proof fn lemma_outcome_unique(
    answers: Seq<Attempt>,
    first: ReseedOutcome,
    second: ReseedOutcome,
)
    requires
        ends_with(answers, first),
        ends_with(answers, second),
    ensures
        first == second,
{
}

/// When the first attempt succeeds, the run makes exactly that one attempt
/// and ends reseeded, with the countdown at the full threshold.
pub proof fn lemma_immediate_success(
    before: Countdown,
    answers: Seq<Attempt>,
    outcome: ReseedOutcome,
)
    requires
        before.wf(),
        ends_with(answers, outcome),
        answers[0] == Attempt::Seeded,
    ensures
        answers.len() == 1,
        outcome == ReseedOutcome::Reseeded,
        settled(before, outcome).remaining == before.threshold,
{
    if answers.len() > 1 {
        assert(step_after(answers[0], 1nat) == Step::Retry);
    }
}

/// The run ends reseeded exactly when its last attempt succeeded.
pub proof fn lemma_reseeded_iff_seeded(answers: Seq<Attempt>, outcome: ReseedOutcome)
    requires
        ends_with(answers, outcome),
    ensures
        outcome == ReseedOutcome::Reseeded <==> answers.last() == Attempt::Seeded,
        forall|i: int| 0 <= i < answers.len() - 1 ==> answers[i] is Failed,
{
    assert forall|i: int| 0 <= i < answers.len() - 1 implies answers[i] is Failed by {
        assert(step_after(answers[i], (i + 1) as nat) == Step::Retry);
    }
}

/// When the seed source only ever reports failures of the wait class, the
/// run makes one attempt and ends delayed, and the countdown is left at the
/// threshold divided by 256, rounded down.
pub proof fn lemma_wait_class_delays(
    before: Countdown,
    answers: Seq<Attempt>,
    outcome: ReseedOutcome,
)
    requires
        before.wf(),
        ends_with(answers, outcome),
        forall|i: int|
            0 <= i < answers.len() ==> (#[trigger] answers[i] matches Attempt::Failed(kind)
                && kind.waits()),
    ensures
        answers.len() == 1,
        outcome == ReseedOutcome::Delayed,
        settled(before, outcome).threshold == before.threshold,
        settled(before, outcome).remaining == before.threshold / 256,
{
    if answers.len() > 1 {
        assert(step_after(answers[0], 1nat) == Step::Retry);
    }
}

/// When the seed source only ever reports permanent failures, the run makes
/// one attempt and skips the cycle: the countdown is left at the full
/// threshold. (That the generator is then the one from before the run is
/// stated where the run is made.)
pub proof fn lemma_permanent_skips(
    before: Countdown,
    answers: Seq<Attempt>,
    outcome: ReseedOutcome,
)
    requires
        before.wf(),
        ends_with(answers, outcome),
        forall|i: int|
            0 <= i < answers.len() ==> (#[trigger] answers[i] matches Attempt::Failed(kind)
                && kind.permanent()),
    ensures
        answers.len() == 1,
        outcome == ReseedOutcome::Skipped,
        settled(before, outcome).threshold == before.threshold,
        settled(before, outcome).remaining == before.threshold,
{
    if answers.len() > 1 {
        assert(step_after(answers[0], 1nat) == Step::Retry);
    }
}

/// When the seed source only ever reports failures of the retry class, the
/// run makes all `MAX_ATTEMPTS` attempts and then skips the cycle: the
/// countdown is left at the full threshold.
pub proof fn lemma_retry_class_exhausts(
    before: Countdown,
    answers: Seq<Attempt>,
    outcome: ReseedOutcome,
)
    requires
        before.wf(),
        ends_with(answers, outcome),
        forall|i: int|
            0 <= i < answers.len() ==> (#[trigger] answers[i] matches Attempt::Failed(kind)
                && kind.retries_at_once()),
    ensures
        answers.len() == MAX_ATTEMPTS,
        outcome == ReseedOutcome::Skipped,
        settled(before, outcome) == before.reset(),
{
    lemma_attempts_bounded(answers, outcome);
    let last = answers.len() - 1;
    assert(answers[last] matches Attempt::Failed(kind) && kind.retries_at_once());
}

/// Whatever the kind of the underlying failure, the fallible procedure
/// reports one of two kinds: `NotReady` or `Transient`.
pub proof fn lemma_two_kinds_reported(cause: FailureKind)
    ensures
        cause.narrowed() == FailureKind::NotReady || cause.narrowed() == FailureKind::Transient,
        cause.passed_on() ==> cause.narrowed() == cause,
        !cause.passed_on() ==> cause.narrowed() == FailureKind::Transient,
{
}

} // verus!
