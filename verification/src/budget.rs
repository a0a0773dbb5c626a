//! The byte budget: how many bytes may still be drawn before a reseed is
//! due.

use vstd::prelude::*;

verus! {

/// After a failure of the wait class the next attempt is due after the
/// threshold divided by this number (the threshold shifted right by 8
/// bits).
pub const DELAY_DIVISOR: i64 = 256;

/// The budget as two integers: the model of a [`Budget`].
pub ghost struct Countdown {
    /// The bytes allowed between two reseeds.
    pub threshold: int,
    /// The bytes that may still be drawn before a reseed is due; at most
    /// zero once one is due, below zero when the last draw overdrew.
    pub remaining: int,
}

impl Countdown {
    /// Validity: the threshold is not negative, and never more remains than
    /// the threshold allows. Both numbers fit a signed 64-bit integer.
    pub open spec fn wf(self) -> bool {
        &&& 0 <= self.threshold <= i64::MAX
        &&& i64::MIN <= self.remaining <= self.threshold
    }

    /// The countdown at the start of a cycle: all of the threshold remains.
    pub open spec fn full(threshold: int) -> Countdown {
        Countdown { threshold, remaining: threshold }
    }

    /// Whether drawing `bytes` more bytes makes a reseed due: nothing
    /// remains once they are taken off.
    pub open spec fn due(self, bytes: nat) -> bool {
        self.remaining - bytes <= 0
    }

    /// The countdown once `bytes` bytes are taken off.
    pub open spec fn spent(self, bytes: nat) -> Countdown {
        Countdown { remaining: self.remaining - bytes, ..self }
    }

    /// The countdown set back to the full threshold.
    pub open spec fn reset(self) -> Countdown {
        Countdown { remaining: self.threshold, ..self }
    }

    /// The countdown after a delay: one part in `DELAY_DIVISOR` of the
    /// threshold remains, rounded down.
    pub open spec fn delayed(self) -> Countdown {
        Countdown { remaining: self.threshold / (DELAY_DIVISOR as int), ..self }
    }

    /// Whether `after` is a countdown that a draw of `bytes` bytes, followed
    /// by the infallible procedure where that draw made a reseed due, can
    /// leave behind.
    pub open spec fn charged(self, bytes: nat, after: Countdown) -> bool {
        if self.due(bytes) {
            after == self.reset() || after == self.delayed()
        } else {
            after == self.spent(bytes)
        }
    }

    /// The countdown after the draws `draws`, each taken off in turn.
    pub open spec fn after_draws(self, draws: Seq<nat>) -> Countdown
        decreases draws.len(),
    {
        if draws.len() == 0 {
            self
        } else {
            self.after_draws(draws.drop_last()).spent(draws.last())
        }
    }

    /// Whether none of the draws `draws`, taken off in turn, makes a reseed
    /// due.
    pub open spec fn none_due(self, draws: Seq<nat>) -> bool {
        forall|i: int|
            0 <= i < draws.len() ==> !(#[trigger] self.after_draws(draws.take(i))).due(draws[i])
    }
}

/// The sum of the byte counts `draws`.
pub open spec fn total(draws: Seq<nat>) -> nat
    decreases draws.len(),
{
    if draws.len() == 0 {
        0
    } else {
        total(draws.drop_last()) + draws.last()
    }
}

/// The byte budget of a reseeding generator.
#[derive(Debug)]
pub struct Budget {
    threshold: i64,
    remaining: i64,
}

impl View for Budget {
    type V = Countdown;

    closed spec fn view(&self) -> Countdown {
        Countdown { threshold: self.threshold as int, remaining: self.remaining as int }
    }
}

impl Budget {
    #[verifier::type_invariant]
    spec fn inv(self) -> bool {
        self@.wf()
    }

    /// A full budget of `threshold` bytes, which the countdown, a signed
    /// 64-bit integer, must be able to hold.
    pub fn full(threshold: u64) -> (budget: Budget)
        requires
            threshold <= i64::MAX,
        ensures
            budget@ == Countdown::full(threshold as int),
    {
        Budget { threshold: threshold as i64, remaining: threshold as i64 }
    }

    /// A full budget of `threshold` bytes; none where `threshold` is more
    /// than the countdown can hold.
    pub fn new(threshold: u64) -> (budget: Option<Budget>)
        ensures
            threshold <= i64::MAX ==> (budget matches Some(b) && b@ == Countdown::full(
                threshold as int,
            )),
            threshold > i64::MAX ==> budget is None,
    {
        if threshold <= i64::MAX as u64 {
            Some(Budget::full(threshold))
        } else {
            None
        }
    }

    /// The bytes allowed between two reseeds.
    pub fn threshold(&self) -> (threshold: u64)
        ensures
            threshold == self@.threshold,
            self@.wf(),
    {
        proof {
            use_type_invariant(self);
        }
        self.threshold as u64
    }

    /// The bytes that may still be drawn before a reseed is due.
    pub fn remaining(&self) -> (remaining: i64)
        ensures
            remaining == self@.remaining,
            self@.wf(),
    {
        proof {
            use_type_invariant(self);
        }
        self.remaining
    }

    /// Whether drawing `bytes` more bytes makes a reseed due.
    pub fn is_due(&self, bytes: usize) -> (due: bool)
        ensures
            due == self@.due(bytes as nat),
    {
        self.remaining <= 0 || (self.remaining as u64) <= (bytes as u64)
    }

    /// Takes `bytes` bytes off. The countdown may go below zero, but not
    /// below what a signed 64-bit integer holds.
    pub fn spend(&mut self, bytes: usize)
        requires
            old(self)@.remaining - bytes >= i64::MIN,
        ensures
            final(self)@ == old(self)@.spent(bytes as nat),
    {
        proof {
            use_type_invariant(&*self);
        }
        let after: i128 = self.remaining as i128 - bytes as i128;
        self.remaining = after as i64;
    }

    /// Sets the countdown back to the full threshold.
    pub fn reset(&mut self)
        ensures
            final(self)@ == old(self)@.reset(),
    {
        proof {
            use_type_invariant(&*self);
        }
        self.remaining = self.threshold;
    }

    /// Sets the countdown to the short stretch that follows a delay.
    pub fn delay(&mut self)
        ensures
            final(self)@ == old(self)@.delayed(),
    {
        proof {
            use_type_invariant(&*self);
        }
        self.remaining = self.threshold / DELAY_DIVISOR;
    }
}

/// Draws that make no reseed due are taken off the countdown one by one:
/// what remains is what remained before less their sum.
pub proof fn lemma_after_draws_total(start: Countdown, draws: Seq<nat>)
    ensures
        start.after_draws(draws).threshold == start.threshold,
        start.after_draws(draws).remaining == start.remaining - total(draws),
    decreases draws.len(),
{
    if draws.len() > 0 {
        lemma_after_draws_total(start, draws.drop_last());
    }
}

/// A reseed is due at exactly the draw with which the bytes drawn since the
/// last reseed reach the threshold: not at an earlier draw, and not later.
///
/// `draws` are the draws made since the countdown was full, none of which
/// made a reseed due; `next` is the draw that follows them.
pub proof fn lemma_exact_trigger(start: Countdown, draws: Seq<nat>, next: nat)
    requires
        start.wf(),
        start.remaining == start.threshold,
        start.none_due(draws),
    ensures
        draws.len() > 0 ==> total(draws) < start.threshold,
        start.after_draws(draws).remaining == start.threshold - total(draws),
        start.after_draws(draws).due(next) <==> total(draws) + next >= start.threshold,
{
    lemma_after_draws_total(start, draws);
    if draws.len() > 0 {
        let before = draws.drop_last();
        lemma_after_draws_total(start, before);
        assert(draws.take(draws.len() - 1) == before);
        assert(!start.after_draws(draws.take(draws.len() - 1)).due(draws[draws.len() - 1]));
    }
}

/// With a threshold of zero every draw makes a reseed due, also one of no
/// bytes.
pub proof fn lemma_zero_threshold_always_due(countdown: Countdown, bytes: nat)
    requires
        countdown.wf(),
        countdown.threshold == 0,
    ensures
        countdown.due(bytes),
{
}

/// A delay never leaves more than a full budget, and never less than
/// nothing: the next reseed is due sooner, not later.
pub proof fn lemma_delay_is_shorter(countdown: Countdown)
    requires
        countdown.wf(),
    ensures
        countdown.delayed().wf(),
        0 <= countdown.delayed().remaining <= countdown.reset().remaining,
        countdown.delayed().remaining == countdown.threshold / 256,
{
}

} // verus!
