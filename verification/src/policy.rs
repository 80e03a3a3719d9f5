//! The retry/backoff policy: after a handler failure it decides whether the
//! job is retried, and after what delay, or abandoned.

use vstd::prelude::*;

verus! {

/// Exponential backoff with a cap, and a bounded number of attempts.
///
/// After a failure on attempt `a` (attempts are counted from 1), the job is
/// abandoned once `a` has reached `max_attempts`; otherwise it becomes
/// claimable again after `min(backoff_base * 2^(a - 1), backoff_cap)`
/// milliseconds. The decision is deterministic in the attempt count and the
/// configuration.
#[derive(Clone, Copy, PartialEq, Eq, Structural, Debug)]
pub struct RetryPolicy {
    pub max_attempts: u64,
    pub backoff_base: u64,
    pub backoff_cap: u64,
}

/// `base * 2^k`, the uncapped backoff ladder.
pub open spec fn raw_backoff(base: u64, k: nat) -> int
    decreases k,
{
    if k == 0 {
        base as int
    } else {
        2 * raw_backoff(base, (k - 1) as nat)
    }
}

pub proof fn lemma_raw_backoff_nonneg(base: u64, k: nat)
    ensures
        raw_backoff(base, k) >= 0,
    decreases k,
{
    if k > 0 {
        lemma_raw_backoff_nonneg(base, (k - 1) as nat);
    }
}

pub proof fn lemma_raw_backoff_monotone(base: u64, k1: nat, k2: nat)
    requires
        k1 <= k2,
    ensures
        raw_backoff(base, k1) <= raw_backoff(base, k2),
    decreases k2,
{
    if k1 < k2 {
        lemma_raw_backoff_monotone(base, k1, (k2 - 1) as nat);
        lemma_raw_backoff_nonneg(base, (k2 - 1) as nat);
    }
}

impl RetryPolicy {
    /// `min(backoff_base * 2^k, backoff_cap)`.
    pub open spec fn capped_backoff(self, k: nat) -> u64 {
        if raw_backoff(self.backoff_base, k) <= self.backoff_cap as int {
            raw_backoff(self.backoff_base, k) as u64
        } else {
            self.backoff_cap
        }
    }

    /// The delay before the retry that follows a failed attempt number
    /// `attempt` (counted from 1), ignoring the attempt bound.
    pub open spec fn spec_delay(self, attempt: u64) -> u64 {
        self.capped_backoff((attempt - 1) as nat)
    }

    /// What `next_delay` returns: nothing once the attempt count has reached
    /// `max_attempts`, else the capped exponential delay.
    pub open spec fn spec_next_delay(self, attempt: u64) -> Option<u64> {
        if attempt >= self.max_attempts {
            None
        } else {
            Some(self.spec_delay(attempt))
        }
    }

    /// Decide the fate of a job that has just failed its `attempt`-th
    /// attempt: `None` once `attempt` has reached `max_attempts` (the job is
    /// abandoned), otherwise the delay until it may be claimed again.
    pub fn next_delay(&self, attempt: u64) -> (r: Option<u64>)
        requires
            1 <= attempt,
        ensures
            r == self.spec_next_delay(attempt),
            r is None <==> attempt >= self.max_attempts,
            r matches Some(d) ==> d <= self.backoff_cap,
    {
        proof {
            lemma_raw_backoff_nonneg(self.backoff_base, (attempt - 1) as nat);
        }
        if attempt >= self.max_attempts {
            return None;
        }
        let mut d: u64 = if self.backoff_base < self.backoff_cap {
            self.backoff_base
        } else {
            self.backoff_cap
        };
        let mut k: u64 = 1;
        while k < attempt && d < self.backoff_cap
            invariant
                1 <= k <= attempt,
                d == self.capped_backoff((k - 1) as nat),
            decreases attempt - k,
        {
            proof {
                lemma_raw_backoff_nonneg(self.backoff_base, (k - 1) as nat);
            }
            if d > self.backoff_cap / 2 {
                d = self.backoff_cap;
            } else {
                d = d * 2;
            }
            k = k + 1;
        }
        proof {
            lemma_raw_backoff_nonneg(self.backoff_base, (k - 1) as nat);
            if k < attempt {
                // The loop stopped at the cap; every later rung is capped too.
                lemma_raw_backoff_monotone(self.backoff_base, (k - 1) as nat, (attempt - 1) as nat);
                assert(d == self.backoff_cap);
                assert(raw_backoff(self.backoff_base, (k - 1) as nat) >= self.backoff_cap as int);
                assert(self.capped_backoff((attempt - 1) as nat) == self.backoff_cap);
            }
        }
        Some(d)
    }
}

/// The delay ladder never decreases with the attempt count: while both
/// attempts are below `max_attempts`, the delay after the later attempt is
/// at least the delay after the earlier one.
pub proof fn lemma_next_delay_monotone(policy: RetryPolicy, a1: u64, a2: u64)
    requires
        1 <= a1 <= a2 < policy.max_attempts,
    ensures
        policy.spec_next_delay(a1) matches Some(d1) && policy.spec_next_delay(a2) matches Some(d2)
            && d1 <= d2,
{
    lemma_raw_backoff_nonneg(policy.backoff_base, (a1 - 1) as nat);
    lemma_raw_backoff_nonneg(policy.backoff_base, (a2 - 1) as nat);
    lemma_raw_backoff_monotone(policy.backoff_base, (a1 - 1) as nat, (a2 - 1) as nat);
}

} // verus!
