//! The retry controller's bookkeeping: how many attempts have failed, the
//! current exponential-backoff delay, and when the attempt ceiling ends
//! the whole operation.

use vstd::prelude::*;

verus! {

use vstd::arithmetic::power2::{pow2, lemma_pow2_unfold, lemma_pow2_strictly_increases};
use vstd::arithmetic::mul::lemma_mul_inequality;

/// What the controller decides after one failed attempt: how long to back
/// off before anything else happens, and whether the attempt ceiling has
/// now been reached, making the failure terminal.
pub struct RetryDecision {
    pub backoff_ms: u64,
    pub give_up: bool,
}

/// Attempt bookkeeping for the retry controller.
#[derive(Clone, Copy, Debug)]
pub struct RetryState {
    /// Failed attempts recorded so far.
    pub failures: u32,
    /// Attempts allowed in all; reaching it is terminal failure.
    pub max_attempts: u32,
    /// The delay slept after the first failure.
    pub initial_delay_ms: u64,
    /// The delay the next failure will back off for.
    pub delay_ms: u64,
}

impl RetryState {
    /// The state is consistent: the current delay is the initial delay
    /// doubled once per recorded failure, the failure count is within the
    /// ceiling, and every delay the schedule can reach fits in 64 bits.
    pub open spec fn wf(self) -> bool {
        &&& self.failures <= self.max_attempts
        &&& self.delay_ms == self.initial_delay_ms * pow2(self.failures as nat)
        &&& self.initial_delay_ms * pow2(self.max_attempts as nat) <= u64::MAX
    }

    /// A fresh controller that has recorded no failures yet.
    pub fn new(max_attempts: u32, initial_delay_ms: u64) -> (r: RetryState)
        requires
            initial_delay_ms * pow2(max_attempts as nat) <= u64::MAX,
        ensures
            r.wf(),
            r.failures == 0,
            r.max_attempts == max_attempts,
            r.initial_delay_ms == initial_delay_ms,
            r.delay_ms == initial_delay_ms,
    {
        proof {
            vstd::arithmetic::power2::lemma2_to64();
            assert(pow2(0) == 1);
        }
        RetryState { failures: 0, max_attempts, initial_delay_ms, delay_ms: initial_delay_ms }
    }

    /// Records one failed attempt. The returned decision carries the delay
    /// to back off for — the initial delay doubled once per prior failure —
    /// and reports terminal failure exactly when the failure count reaches
    /// the attempt ceiling. The stored delay doubles for the next failure.
    pub fn record_failure(&mut self) -> (r: RetryDecision)
        requires
            old(self).wf(),
            old(self).failures < old(self).max_attempts,
        ensures
            final(self).wf(),
            final(self).failures == old(self).failures + 1,
            final(self).max_attempts == old(self).max_attempts,
            final(self).initial_delay_ms == old(self).initial_delay_ms,
            final(self).delay_ms == 2 * old(self).delay_ms,
            r.backoff_ms == old(self).delay_ms,
            r.backoff_ms == old(self).initial_delay_ms * pow2(old(self).failures as nat),
            r.give_up <==> old(self).failures + 1 == old(self).max_attempts,
    {
        proof {
            let f = self.failures as nat;
            let m = self.max_attempts as nat;
            let d = self.initial_delay_ms as int;
            lemma_backoff_doubles(self.initial_delay_ms, f);
            if f + 1 < m {
                lemma_pow2_strictly_increases(f + 1, m);
            }
            vstd::arithmetic::mul::lemma_mul_is_commutative(d, pow2(f + 1) as int);
            vstd::arithmetic::mul::lemma_mul_is_commutative(d, pow2(m) as int);
            lemma_mul_inequality(pow2(f + 1) as int, pow2(m) as int, d);
            assert(2 * (d * pow2(f)) == d * pow2(f + 1));
            assert(d * pow2(f + 1) <= d * pow2(m));
        }
        let backoff = self.delay_ms;
        self.failures = self.failures + 1;
        self.delay_ms = self.delay_ms * 2;
        RetryDecision { backoff_ms: backoff, give_up: self.failures == self.max_attempts }
    }
}

/// Backoff law: each backoff delay in the schedule is exactly twice the
/// one before it, so the delays run `initial, 2*initial, 4*initial, ...`
/// over the successive failures.
pub proof fn lemma_backoff_doubles(initial_delay_ms: u64, k: nat)
    ensures
        initial_delay_ms * pow2(k + 1) == 2 * (initial_delay_ms * pow2(k)),
{
    lemma_pow2_unfold(k + 1);
    vstd::arithmetic::mul::lemma_mul_is_associative(
        initial_delay_ms as int,
        2,
        pow2(k) as int,
    );
    vstd::arithmetic::mul::lemma_mul_is_commutative(initial_delay_ms as int, 2);
    vstd::arithmetic::mul::lemma_mul_is_associative(
        2,
        initial_delay_ms as int,
        pow2(k) as int,
    );
}

} // verus!
