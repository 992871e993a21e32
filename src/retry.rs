//! Bounded retry with exponential backoff for transient failures of the
//! platform or the database.
use vstd::prelude::*;
use vstd::arithmetic::power::lemma_pow0;
use vstd::arithmetic::power2::{lemma_pow2, lemma_pow2_strictly_increases, lemma_pow2_unfold, pow2};

verus! {

/// How often, and how patiently, a failed operation is tried again.
#[derive(Debug, Clone, Copy, PartialEq, Eq, Structural)]
pub struct RetryPolicy {
    /// Attempts in all, the first included.
    pub max_attempts: u32,
    /// The wait before the first retry.
    pub base_delay_ms: u64,
    /// No wait is longer than this.
    pub max_delay_ms: u64,
}

/// Whether to try again, and after how long.
#[derive(Debug, Clone, Copy, PartialEq, Eq, Structural)]
pub enum RetryDecision {
    Retry { delay_ms: u64 },
    GiveUp,
}

pub open spec fn min_int(a: int, b: int) -> int {
    if a < b {
        a
    } else {
        b
    }
}

/// The wait after `failed` failures: the base doubled once per earlier
/// failure, capped at the longest wait.
pub open spec fn backoff_ms(p: RetryPolicy, failed: nat) -> int {
    min_int(p.base_delay_ms * pow2((failed - 1) as nat), p.max_delay_ms as int)
}

/// After `failed` failed attempts: give up once all attempts are spent, else
/// wait the backoff and retry.
pub open spec fn decide_spec(p: RetryPolicy, failed: u32) -> RetryDecision {
    if failed >= p.max_attempts {
        RetryDecision::GiveUp
    } else {
        RetryDecision::Retry { delay_ms: backoff_ms(p, failed as nat) as u64 }
    }
}

impl RetryPolicy {
    /// What to do after `failed` failed attempts (at least one).
    pub fn decide(&self, failed: u32) -> (r: RetryDecision)
        requires
            failed >= 1,
        ensures
            r == decide_spec(*self, failed),
    {
        if failed >= self.max_attempts {
            return RetryDecision::GiveUp;
        }
        let max = self.max_delay_ms;
        let base = self.base_delay_ms;
        let mut d: u64 = if base < max {
            base
        } else {
            max
        };
        let mut k: u32 = 1;
        proof {
            lemma_pow0(2);
            lemma_pow2(0);
            assert(base * pow2(0) == base);
        }
        while k < failed && d < max
            invariant
                1 <= k <= failed,
                max == self.max_delay_ms,
                base == self.base_delay_ms,
                d as int == backoff_ms(*self, k as nat),
                d <= max,
            decreases failed - k,
        {
            proof {
                lemma_pow2_unfold(k as nat);
                let p = pow2((k - 1) as nat);
                assert(base * (2 * p) == 2 * (base * p)) by (nonlinear_arith);
            }
            if d > max / 2 {
                d = max;
            } else {
                d = d * 2;
            }
            k = k + 1;
        }
        proof {
            if k < failed {
                lemma_pow2_strictly_increases((k - 1) as nat, (failed - 1) as nat);
                let a = pow2((k - 1) as nat);
                let b = pow2((failed - 1) as nat);
                assert(base * b >= base * a) by (nonlinear_arith)
                    requires
                        b > a,
                ;
            }
        }
        RetryDecision::Retry { delay_ms: d }
    }
}

} // verus!
