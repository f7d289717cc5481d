//! Retry policy: exponential backoff delays and the decision rule the retry
//! decorator follows. All delays are in milliseconds.

use vstd::prelude::*;
use vstd::arithmetic::mul::lemma_mul_inequality;

verus! {

/// `base` to the power `k`.
pub open spec fn pow_int(base: int, k: int) -> int
    recommends
        k >= 0,
    decreases k,
{
    if k <= 0 {
        1
    } else {
        base * pow_int(base, k - 1)
    }
}

/// Configuration for retry behaviour: delay bounds, the exponential factor
/// and the retry budget.
#[derive(Debug, Clone, Copy, PartialEq, Eq, Structural)]
pub struct RetryConfig {
    /// Delay before the first retry, in milliseconds.
    pub min_delay_ms: u64,
    /// Ceiling on every delay, in milliseconds.
    pub max_delay_ms: u64,
    /// Exponential backoff factor.
    pub factor: u64,
    /// Maximum number of retries after the first attempt.
    pub max_retries: usize,
}

/// The delay before the retry that follows failed attempt number `attempt`
/// (counted from zero): `min_delay * factor^attempt`, capped at `max_delay`.
pub open spec fn retry_delay_spec(c: RetryConfig, attempt: int) -> int {
    let raw = c.min_delay_ms * pow_int(c.factor as int, attempt);
    if raw > c.max_delay_ms {
        c.max_delay_ms as int
    } else {
        raw
    }
}

/// What the retry loop does after a failed attempt.
#[derive(Debug, Clone, Copy, PartialEq, Eq, Structural)]
pub enum RetryDecision {
    /// Give the error to the caller unchanged.
    Stop,
    /// Sleep for the given delay, then call again.
    RetryAfter { delay_ms: u64 },
}

/// The decision after failed attempt number `attempt` (counted from zero):
/// retry only a retryable error within the budget, after the backoff delay.
pub open spec fn retry_decision_spec(c: RetryConfig, attempt: int, is_retryable: bool)
    -> RetryDecision {
    if !is_retryable || attempt >= c.max_retries {
        RetryDecision::Stop
    } else {
        RetryDecision::RetryAfter { delay_ms: retry_delay_spec(c, attempt) as u64 }
    }
}

impl RetryConfig {
    /// The default policy: one-second first delay, thirty-second ceiling,
    /// doubling, three retries.
    pub open spec fn default_spec() -> RetryConfig {
        RetryConfig { min_delay_ms: 1_000, max_delay_ms: 30_000, factor: 2, max_retries: 3 }
    }
}

impl Default for RetryConfig {
    /// One-second first delay, thirty-second ceiling, doubling, three
    /// retries.
    fn default() -> (r: Self)
        ensures
            r == (RetryConfig {
                min_delay_ms: 1_000,
                max_delay_ms: 30_000,
                factor: 2,
                max_retries: 3,
            }),
    {
        RetryConfig { min_delay_ms: 1_000, max_delay_ms: 30_000, factor: 2, max_retries: 3 }
    }
}

impl RetryConfig {
    /// This configuration with another first delay.
    pub fn with_min_delay(self, min_delay_ms: u64) -> (r: Self)
        ensures
            r == (RetryConfig { min_delay_ms, ..self }),
    {
        RetryConfig { min_delay_ms, ..self }
    }

    /// This configuration with another delay ceiling.
    pub fn with_max_delay(self, max_delay_ms: u64) -> (r: Self)
        ensures
            r == (RetryConfig { max_delay_ms, ..self }),
    {
        RetryConfig { max_delay_ms, ..self }
    }

    /// This configuration with another backoff factor.
    pub fn with_factor(self, factor: u64) -> (r: Self)
        ensures
            r == (RetryConfig { factor, ..self }),
    {
        RetryConfig { factor, ..self }
    }

    /// This configuration with another retry budget.
    pub fn with_max_retries(self, max_retries: usize) -> (r: Self)
        ensures
            r == (RetryConfig { max_retries, ..self }),
    {
        RetryConfig { max_retries, ..self }
    }

    /// The delay before the retry that follows failed attempt `attempt`.
    pub fn delay_for_attempt(&self, attempt: usize) -> (r: u64)
        ensures
            r == retry_delay_spec(*self, attempt as int),
    {
        if self.factor == 0 {
            // with a zero factor the raw delay is the first delay once, then
            // zero forever
            proof {
                if attempt > 0 {
                    lemma_pow_zero_factor(attempt as int);
                }
            }
            if attempt == 0 {
                if self.min_delay_ms > self.max_delay_ms {
                    return self.max_delay_ms;
                }
                return self.min_delay_ms;
            }
            return 0;
        }
        let mut d: u64 = self.min_delay_ms;
        let mut k: usize = 0;
        if d > self.max_delay_ms {
            proof {
                lemma_pow_pos(self.factor as int, attempt as int);
                lemma_mul_inequality(
                    1,
                    pow_int(self.factor as int, attempt as int),
                    self.min_delay_ms as int,
                );
                assert(self.min_delay_ms * pow_int(self.factor as int, attempt as int) == pow_int(
                    self.factor as int,
                    attempt as int,
                ) * self.min_delay_ms) by {
                    vstd::arithmetic::mul::lemma_mul_is_commutative(
                        self.min_delay_ms as int,
                        pow_int(self.factor as int, attempt as int),
                    );
                }
            }
            return self.max_delay_ms;
        }
        while k < attempt
            invariant
                0 <= k <= attempt,
                self.factor >= 1,
                d == self.min_delay_ms * pow_int(self.factor as int, k as int),
                d <= self.max_delay_ms,
            decreases attempt - k,
        {
            proof {
                lemma_pow_step(self.factor as int, k as int);
                vstd::arithmetic::mul::lemma_mul_is_associative(
                    self.min_delay_ms as int,
                    pow_int(self.factor as int, k as int),
                    self.factor as int,
                );
            }
            let next = match d.checked_mul(self.factor) {
                Some(next) => next,
                None => {
                    proof {
                        lemma_raw_delay_monotone(*self, k as int + 1, attempt as int);
                    }
                    return self.max_delay_ms;
                },
            };
            if next > self.max_delay_ms {
                proof {
                    lemma_raw_delay_monotone(*self, k as int + 1, attempt as int);
                }
                return self.max_delay_ms;
            }
            d = next;
            k += 1;
        }
        d
    }

    /// The retry loop's decision after failed attempt `attempt`: stop on a
    /// non-retryable error or an exhausted budget, otherwise retry after the
    /// backoff delay.
    pub fn decide(&self, attempt: usize, is_retryable: bool) -> (r: RetryDecision)
        ensures
            r == retry_decision_spec(*self, attempt as int, is_retryable),
    {
        if !is_retryable || attempt >= self.max_retries {
            RetryDecision::Stop
        } else {
            let delay_ms = self.delay_for_attempt(attempt);
            proof {
                lemma_retry_delay_bounds(*self, attempt as int);
            }
            RetryDecision::RetryAfter { delay_ms }
        }
    }
}

proof fn lemma_pow_zero_factor(k: int)
    requires
        k >= 1,
    ensures
        pow_int(0, k) == 0,
{
}

proof fn lemma_pow_pos(base: int, k: int)
    requires
        base >= 1,
    ensures
        pow_int(base, k) >= 1,
    decreases k,
{
    if k > 0 {
        lemma_pow_pos(base, k - 1);
        lemma_mul_inequality(1, pow_int(base, k - 1), base);
        vstd::arithmetic::mul::lemma_mul_is_commutative(base, pow_int(base, k - 1));
    }
}

proof fn lemma_pow_step(base: int, k: int)
    requires
        k >= 0,
    ensures
        pow_int(base, k + 1) == pow_int(base, k) * base,
    decreases k,
{
    if k > 0 {
        lemma_pow_step(base, k - 1);
        vstd::arithmetic::mul::lemma_mul_is_associative(base, pow_int(base, k - 1), base);
    } else {
        vstd::arithmetic::mul::lemma_mul_is_commutative(base, 1);
    }
}

/// With a factor of at least one, the raw (uncapped) delay is monotone in
/// the attempt number.
proof fn lemma_raw_delay_monotone(c: RetryConfig, a1: int, a2: int)
    requires
        c.factor >= 1,
        0 <= a1 <= a2,
    ensures
        c.min_delay_ms * pow_int(c.factor as int, a1) <= c.min_delay_ms * pow_int(
            c.factor as int,
            a2,
        ),
    decreases a2 - a1,
{
    if a1 < a2 {
        lemma_raw_delay_monotone(c, a1, a2 - 1);
        lemma_pow_step(c.factor as int, a2 - 1);
        lemma_pow_pos(c.factor as int, a2 - 1);
        lemma_mul_inequality(1, c.factor as int, pow_int(c.factor as int, a2 - 1));
        // factor^(a2-1) <= factor^(a2-1) * factor = factor^a2
        vstd::arithmetic::mul::lemma_mul_is_commutative(
            c.factor as int,
            pow_int(c.factor as int, a2 - 1),
        );
        lemma_mul_inequality(
            pow_int(c.factor as int, a2 - 1),
            pow_int(c.factor as int, a2),
            c.min_delay_ms as int,
        );
        vstd::arithmetic::mul::lemma_mul_is_commutative(
            c.min_delay_ms as int,
            pow_int(c.factor as int, a2 - 1),
        );
        vstd::arithmetic::mul::lemma_mul_is_commutative(
            c.min_delay_ms as int,
            pow_int(c.factor as int, a2),
        );
    }
}

/// Every computed delay fits in the delay ceiling.
pub proof fn lemma_retry_delay_bounds(c: RetryConfig, attempt: int)
    requires
        attempt >= 0,
    ensures
        0 <= retry_delay_spec(c, attempt) <= c.max_delay_ms,
{
    if c.factor == 0 {
        if attempt >= 1 {
            lemma_pow_zero_factor(attempt);
        }
    } else {
        lemma_pow_pos(c.factor as int, attempt);
    }
    vstd::arithmetic::mul::lemma_mul_nonnegative(
        c.min_delay_ms as int,
        pow_int(c.factor as int, attempt),
    );
}

/// The computed retry delay never decreases from one attempt to the next
/// and never exceeds the configured ceiling.
pub proof fn lemma_retry_delay_monotone(c: RetryConfig, a1: int, a2: int)
    requires
        c.factor >= 1,
        0 <= a1 <= a2,
    ensures
        retry_delay_spec(c, a1) <= retry_delay_spec(c, a2),
        retry_delay_spec(c, a2) <= c.max_delay_ms,
{
    lemma_raw_delay_monotone(c, a1, a2);
    lemma_retry_delay_bounds(c, a1);
    lemma_retry_delay_bounds(c, a2);
}

/// A non-retryable failure is never retried: whatever the budget, the
/// decision after any attempt is to stop, so the loop makes exactly one
/// call.
pub proof fn lemma_non_retryable_stops(c: RetryConfig, attempt: int)
    ensures
        retry_decision_spec(c, attempt, false) == RetryDecision::Stop,
{
}

} // verus!
