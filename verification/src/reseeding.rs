//! The reseeding generator: a generator, a seed source and a byte budget.

use crate::budget::{Budget, Countdown};
use crate::error::{FillError, Rejected, ReseedError};
use crate::kind::FailureKind;
use crate::policy::{
    decide, ends_with, narrow, settled, step_after, Attempt, ReseedOutcome, Step, MAX_ATTEMPTS,
};
use crate::source::{
    fill_bytes_of, from_rng_of, kind_of, next_u32_of, next_u64_of, try_fill_bytes_of, with_cause,
};
use rand_core::{Error, RngCore, SeedableRng};
use vstd::prelude::*;

verus! {

/// A reseeding generator as its three parts: the model of a
/// [`ReseedingRng`].
pub ghost struct State<R, Rsdr> {
    /// The wrapped generator, from which all output is drawn.
    pub generator: R,
    /// The seed source, drawn from only to rebuild the generator.
    pub seed_source: Rsdr,
    /// The byte budget.
    pub countdown: Countdown,
}

/// A wrapper around a generator that rebuilds it from a seed source after it
/// has given out a set number of bytes.
///
/// Reseeding is never needed for the generator to work; it limits what a
/// weakness of the generator, found later, can give away. A reseed that
/// fails is therefore no reason to stop: the operations that cannot fail go
/// on with the stale generator, and only [`ReseedingRng::try_fill_bytes`]
/// and [`ReseedingRng::try_reseed`] report the failure.
#[derive(Debug)]
pub struct ReseedingRng<R, Rsdr> {
    rng: R,
    reseeder: Rsdr,
    budget: Budget,
}

impl<R, Rsdr> View for ReseedingRng<R, Rsdr> {
    type V = State<R, Rsdr>;

    closed spec fn view(&self) -> State<R, Rsdr> {
        State { generator: self.rng, seed_source: self.reseeder, countdown: self.budget@ }
    }
}

/// What a run of the infallible reseed procedure did.
#[derive(Clone, Copy)]
pub struct ReseedReport {
    /// How the run ended.
    pub outcome: ReseedOutcome,
    /// How many attempts to rebuild the generator the run made.
    pub attempts: u32,
    /// What the last attempt came to.
    pub last: Attempt,
    /// What each attempt came to, in the order in which they were made.
    pub answers: Ghost<Seq<Attempt>>,
}

impl ReseedReport {
    /// Validity: the report is that of a run of the infallible procedure.
    /// The seed source's answers lead to the outcome, and the attempts are
    /// counted and the last one kept as they were made.
    pub open spec fn wf(self) -> bool {
        &&& ends_with(self.answers@, self.outcome)
        &&& self.answers@.len() == self.attempts
        &&& 1 <= self.attempts <= MAX_ATTEMPTS
        &&& self.answers@.last() == self.last
    }
}

impl<R: RngCore + SeedableRng, Rsdr: RngCore> ReseedingRng<R, Rsdr> {
    /// A reseeding generator that draws from `rng` and rebuilds it from
    /// `reseeder` after every `threshold` bytes. The threshold must fit the
    /// countdown, a signed 64-bit integer.
    pub fn new(rng: R, threshold: u64, reseeder: Rsdr) -> (reseeding: ReseedingRng<R, Rsdr>)
        requires
            threshold <= i64::MAX,
        ensures
            reseeding@ == (State {
                generator: rng,
                seed_source: reseeder,
                countdown: Countdown::full(threshold as int),
            }),
    {
        ReseedingRng { rng, reseeder, budget: Budget::full(threshold) }
    }

    /// A reseeding generator as [`ReseedingRng::new`] makes it, for every
    /// threshold that the countdown can hold. A larger threshold is
    /// refused, and the generator and the seed source come back untouched.
    pub fn try_new(rng: R, threshold: u64, reseeder: Rsdr) -> (made: Result<
        ReseedingRng<R, Rsdr>,
        Rejected<R, Rsdr>,
    >)
        ensures
            threshold <= i64::MAX ==> (made matches Ok(reseeding) && reseeding@ == (State {
                generator: rng,
                seed_source: reseeder,
                countdown: Countdown::full(threshold as int),
            })),
            threshold > i64::MAX ==> made == Err::<ReseedingRng<R, Rsdr>, Rejected<R, Rsdr>>(
                Rejected { rng, reseeder, threshold },
            ),
    {
        match Budget::new(threshold) {
            Some(budget) => Ok(ReseedingRng { rng, reseeder, budget }),
            None => Err(Rejected { rng, reseeder, threshold }),
        }
    }

    /// The bytes allowed between two reseeds.
    pub fn threshold(&self) -> (threshold: u64)
        ensures
            threshold == self@.countdown.threshold,
            self@.countdown.wf(),
    {
        self.budget.threshold()
    }

    /// The bytes that may still be drawn before a reseed is due. Below zero
    /// only after a fallible fill whose reseed failed.
    pub fn bytes_until_reseed(&self) -> (remaining: i64)
        ensures
            remaining == self@.countdown.remaining,
            self@.countdown.wf(),
    {
        self.budget.remaining()
    }

    /// One attempt to rebuild the generator from the seed source. On
    /// success the new generator takes the place of the old one; on failure
    /// the old one stays. Which of the two it is, the seed source decides;
    /// what is done with its answer is [`ReseedingRng::install`].
    fn rebuild(&mut self) -> (rebuilt: Result<(), Error>)
        ensures
            final(self)@.countdown == old(self)@.countdown,
            rebuilt is Err ==> final(self)@.generator == old(self)@.generator,
    {
        let made = from_rng_of::<R, Rsdr>(&mut self.reseeder);
        self.install(made)
    }

    /// Takes in what an attempt to build a new generator came to. A
    /// generator that was built takes the place of the wrapped one, which
    /// is dropped; a failure is handed back as it came, and the wrapped
    /// generator stays. The seed source and the countdown are not touched.
    pub fn install(&mut self, made: Result<R, Error>) -> (installed: Result<(), Error>)
        ensures
            match made {
                Ok(rng) => {
                    &&& installed == Ok::<(), Error>(())
                    &&& final(self)@ == (State { generator: rng, ..old(self)@ })
                },
                Err(error) => {
                    &&& installed == Err::<(), Error>(error)
                    &&& final(self)@ == old(self)@
                },
            },
    {
        match made {
            Ok(rng) => {
                self.rng = rng;
                Ok(())
            },
            Err(error) => Err(error),
        }
    }

    /// Reseeds the generator, and works round a seed source that fails.
    ///
    /// The countdown is set back to the threshold first. Then the generator
    /// is rebuilt from the seed source. Where the seed source is not ready,
    /// the next reseed is due after the threshold divided by
    /// [`DELAY_DIVISOR`](crate::budget::DELAY_DIVISOR). Where retrying may
    /// help, the attempt is repeated at once, up to
    /// [`MAX_ATTEMPTS`] attempts in all. After any other failure, and after
    /// the last attempt, the stale generator stays in use for another full
    /// threshold.
    pub fn reseed(&mut self) -> (report: ReseedReport)
        ensures
            report.wf(),
            final(self)@.countdown == settled(old(self)@.countdown, report.outcome),
            report.outcome == ReseedOutcome::Reseeded ==> final(self)@.countdown.remaining
                == final(self)@.countdown.threshold,
            report.outcome != ReseedOutcome::Reseeded ==> final(self)@.generator
                == old(self)@.generator,
    {
        self.budget.reset();
        let ghost mut answers: Seq<Attempt> = Seq::empty();
        let mut number: u32 = 0;
        loop
            invariant
                number < MAX_ATTEMPTS,
                answers.len() == number,
                forall|i: int|
                    #![trigger answers[i]]
                    0 <= i < answers.len() ==> step_after(answers[i], (i + 1) as nat)
                        == Step::Retry,
                self@.generator == old(self)@.generator,
                self@.countdown == old(self)@.countdown.reset(),
            decreases MAX_ATTEMPTS - number,
        {
            number = number + 1;
            let attempt = match self.rebuild() {
                Ok(()) => Attempt::Seeded,
                Err(error) => Attempt::Failed(kind_of(&error)),
            };
            proof {
                answers = answers.push(attempt);
            }
            match decide(attempt, number) {
                Step::Retry => {},
                Step::Finish(outcome) => {
                    match outcome {
                        ReseedOutcome::Delayed => self.budget.delay(),
                        _ => {},
                    }
                    return ReseedReport {
                        outcome,
                        attempts: number,
                        last: attempt,
                        answers: Ghost(answers),
                    };
                },
            }
        }
    }

    /// Reseeds the generator with one attempt, and reports a failure.
    ///
    /// On success the countdown is set back to the threshold. A failure of
    /// kind `NotReady` or `Transient` is reported under its own kind, and
    /// the countdown stays as it is, so that a reseed that was due stays
    /// due. Every other failure is reported as `Transient`, and the
    /// countdown is set back to the threshold: this cycle is skipped. The
    /// seed source's own error is the cause of the error that is returned.
    pub fn try_reseed(&mut self) -> (reseeded: Result<(), ReseedError>)
        ensures
            reseeded is Ok ==> final(self)@.countdown == old(self)@.countdown.reset(),
            reseeded matches Err(e) ==> {
                &&& e.wf()
                &&& (e.kind == FailureKind::NotReady || e.kind == FailureKind::Transient)
                &&& final(self)@.generator == old(self)@.generator
                &&& final(self)@.countdown == if e.cause.passed_on() {
                    old(self)@.countdown
                } else {
                    old(self)@.countdown.reset()
                }
            },
    {
        match self.rebuild() {
            Ok(()) => {
                self.budget.reset();
                Ok(())
            },
            Err(error) => {
                let cause = kind_of(&error);
                let (kind, skip) = narrow(cause);
                if skip {
                    self.budget.reset();
                }
                Err(ReseedError { kind, cause, error: with_cause(kind, "reseeding failed", error) })
            },
        }
    }

    /// Counts `bytes` bytes against the budget, and reseeds where that uses
    /// the budget up. Returns the report of the reseed where one was run.
    pub fn charge(&mut self, bytes: usize) -> (report: Option<ReseedReport>)
        ensures
            report is Some <==> old(self)@.countdown.due(bytes as nat),
            report is None ==> final(self)@ == (State {
                countdown: old(self)@.countdown.spent(bytes as nat),
                ..old(self)@
            }),
            report matches Some(r) ==> {
                &&& r.wf()
                &&& final(self)@.countdown == settled(old(self)@.countdown, r.outcome)
                &&& (r.outcome != ReseedOutcome::Reseeded ==> final(self)@.generator
                    == old(self)@.generator)
            },
            old(self)@.countdown.charged(bytes as nat, final(self)@.countdown),
    {
        if self.budget.is_due(bytes) {
            Some(self.reseed())
        } else {
            self.budget.spend(bytes);
            None
        }
    }

    /// The next 32 bits of the generator. They count as 4 bytes; where that
    /// uses the budget up, the generator is reseeded before the call
    /// returns. A reseed that fails does not show.
    pub fn next_u32(&mut self) -> (value: u32)
        ensures
            old(self)@.countdown.charged(4, final(self)@.countdown),
            !old(self)@.countdown.due(4) ==> final(self)@.seed_source == old(self)@.seed_source,
    {
        let value = next_u32_of(&mut self.rng);
        let _ = self.charge(4);
        value
    }

    /// The next 64 bits of the generator. They count as 8 bytes; where that
    /// uses the budget up, the generator is reseeded before the call
    /// returns. A reseed that fails does not show.
    pub fn next_u64(&mut self) -> (value: u64)
        ensures
            old(self)@.countdown.charged(8, final(self)@.countdown),
            !old(self)@.countdown.due(8) ==> final(self)@.seed_source == old(self)@.seed_source,
    {
        let value = next_u64_of(&mut self.rng);
        let _ = self.charge(8);
        value
    }

    /// Fills `dest` from the generator. Its length counts against the
    /// budget; where that uses the budget up, the generator is reseeded
    /// before the call returns. A reseed that fails does not show.
    pub fn fill_bytes(&mut self, dest: &mut [u8])
        ensures
            final(dest)@.len() == old(dest)@.len(),
            old(self)@.countdown.charged(old(dest)@.len(), final(self)@.countdown),
            !old(self)@.countdown.due(old(dest)@.len()) ==> final(self)@.seed_source
                == old(self)@.seed_source,
    {
        fill_bytes_of(&mut self.rng, dest);
        let _ = self.charge(dest.len());
    }

    /// Fills `dest` from the generator, and reports what fails.
    ///
    /// A failure of the generator is handed on at once, and nothing is
    /// counted. Otherwise the length of `dest` is taken off the countdown,
    /// and where nothing remains, [`ReseedingRng::try_reseed`] is run and its
    /// failure handed on.
    pub fn try_fill_bytes(&mut self, dest: &mut [u8]) -> (filled: Result<(), FillError>)
        requires
            old(self)@.countdown.remaining - old(dest)@.len() >= i64::MIN,
        ensures
            final(dest)@.len() == old(dest)@.len(),
            filled is Ok ==> final(self)@.countdown == if old(self)@.countdown.due(
                old(dest)@.len(),
            ) {
                old(self)@.countdown.reset()
            } else {
                old(self)@.countdown.spent(old(dest)@.len())
            },
            filled is Ok && !old(self)@.countdown.due(old(dest)@.len()) ==> final(
                self)@.seed_source == old(self)@.seed_source,
            filled matches Err(FillError::Generator(_)) ==> {
                &&& final(self)@.countdown == old(self)@.countdown
                &&& final(self)@.seed_source == old(self)@.seed_source
            },
            filled matches Err(FillError::Reseed(e)) ==> {
                &&& old(self)@.countdown.due(old(dest)@.len())
                &&& e.wf()
                &&& (e.kind == FailureKind::NotReady || e.kind == FailureKind::Transient)
                &&& final(self)@.countdown == if e.cause.passed_on() {
                    old(self)@.countdown.spent(old(dest)@.len())
                } else {
                    old(self)@.countdown.reset()
                }
            },
    {
        match try_fill_bytes_of(&mut self.rng, dest) {
            Ok(()) => {},
            Err(error) => {
                return Err(FillError::Generator(error));
            },
        }
        self.budget.spend(dest.len());
        if self.budget.remaining() <= 0 {
            match self.try_reseed() {
                Ok(()) => Ok(()),
                Err(e) => Err(FillError::Reseed(e)),
            }
        } else {
            Ok(())
        }
    }
}

} // verus!
