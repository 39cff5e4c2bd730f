//! Backoff: how long a call waits before each of its retries.

use crate::time::{
    duration_from_nanos,
    duration_from_nanos_saturating,
    duration_nanos,
    MAX_DURATION_NANOS,
};
use std::time::Duration;
use vstd::arithmetic::mul::{lemma_mul_inequality, lemma_mul_is_associative};
use vstd::arithmetic::power::{lemma0_pow, lemma1_pow, lemma_pow0, lemma_pow_increases, pow};
use vstd::prelude::*;

verus! {

/// How the delay grows from one retry to the next.
#[derive(Clone, Copy, Debug, PartialEq, Eq)]
pub enum BackoffStrategy {
    /// The same delay before every retry.
    Fixed,
    /// Each delay is `multiplier` times the one before.
    Exponential { multiplier: u32 },
    /// Each delay is `increment` longer than the one before.
    Linear { increment: Duration },
}

/// How often, and after what delays, a failed call is tried again.
#[derive(Clone, Copy, Debug, PartialEq, Eq)]
pub struct RetryConfig {
    /// Retries allowed after the first attempt.
    pub max_retries: usize,
    /// Delay before the first retry.
    pub initial_delay: Duration,
    /// Growth of the delay over the retries.
    pub backoff_strategy: BackoffStrategy,
    /// Whether a status is issued for every retry.
    pub verbose: bool,
}

impl Default for RetryConfig {
    /// Ten retries, the first after two seconds, each delay three times the
    /// one before, and no status notifications.
    fn default() -> (config: Self)
        ensures
            config.max_retries == 10,
            duration_nanos(config.initial_delay) == 2_000_000_000,
            config.backoff_strategy == (BackoffStrategy::Exponential { multiplier: 3 }),
            !config.verbose,
    {
        RetryConfig {
            max_retries: 10,
            initial_delay: Duration::from_millis(2000),
            backoff_strategy: BackoffStrategy::Exponential { multiplier: 3 },
            verbose: false,
        }
    }
}

/// `scale * base^exp`, where it fits in 128 bits.
fn scaled_power(scale: u128, base: u32, exp: usize) -> (product: Option<u128>)
    ensures
        product is Some <==> scale * pow(base as int, exp as nat) <= u128::MAX,
        product matches Some(p) ==> p == scale * pow(base as int, exp as nat),
{
    proof {
        lemma_pow0(base as int);
    }
    if exp == 0 || scale == 0 {
        return Some(scale);
    }
    if base == 0 {
        proof {
            lemma0_pow(exp as nat);
        }
        return Some(0);
    }
    if base == 1 {
        proof {
            lemma1_pow(exp as nat);
        }
        return Some(scale);
    }
    let mut acc: u128 = scale;
    let mut done: usize = 0;
    while done < exp
        invariant
            done <= exp,
            base >= 2,
            scale >= 1,
            acc == scale * pow(base as int, done as nat),
        decreases exp - done,
    {
        proof {
            lemma_power_step(scale as int, base as int, done as nat);
        }
        match acc.checked_mul(base as u128) {
            Some(next) => {
                acc = next;
                done = done + 1;
            },
            None => {
                proof {
                    lemma_pow_increases(base as nat, (done + 1) as nat, exp as nat);
                    lemma_mul_inequality(
                        pow(base as int, (done + 1) as nat),
                        pow(base as int, exp as nat),
                        scale as int,
                    );
                    assert(scale * pow(base as int, (done + 1) as nat) == pow(
                        base as int,
                        (done + 1) as nat,
                    ) * scale) by (nonlinear_arith);
                    assert(scale * pow(base as int, exp as nat) == pow(base as int, exp as nat)
                        * scale) by (nonlinear_arith);
                }
                return None;
            },
        }
    }
    Some(acc)
}

/// One more factor: `scale * base^(e + 1)` is `scale * base^e * base`.
proof fn lemma_power_step(scale: int, base: int, e: nat)
    ensures
        scale * pow(base, e + 1) == (scale * pow(base, e)) * base,
{
    reveal(pow);
    assert(pow(base, e + 1) == base * pow(base, e));
    lemma_mul_is_associative(scale, pow(base, e), base);
    assert(base * pow(base, e) == pow(base, e) * base) by (nonlinear_arith);
}

impl RetryConfig {
    /// The delay before retry number `attempt`, counted from one, in
    /// nanoseconds: the initial delay under `Fixed`, the initial delay times
    /// `multiplier^(attempt - 1)` under `Exponential`, and the initial delay
    /// plus `attempt - 1` increments under `Linear`.
    pub open spec fn delay_nanos(&self, attempt: nat) -> nat
        recommends
            attempt >= 1,
    {
        let initial = duration_nanos(self.initial_delay);
        match self.backoff_strategy {
            BackoffStrategy::Fixed => initial,
            BackoffStrategy::Exponential { multiplier } => (initial * pow(
                multiplier as int,
                (attempt - 1) as nat,
            )) as nat,
            BackoffStrategy::Linear { increment } => initial + duration_nanos(increment) * (attempt
                - 1) as nat,
        }
    }

    /// The delay before retry number `attempt` in nanoseconds, where
    /// `attempt` is at least one and the delay fits in 128 bits.
    fn checked_delay_nanos(&self, attempt: usize) -> (nanos: Option<u128>)
        ensures
            nanos is Some <==> attempt >= 1 && self.delay_nanos(attempt as nat) <= u128::MAX,
            nanos matches Some(n) ==> n == self.delay_nanos(attempt as nat),
    {
        if attempt == 0 {
            return None;
        }
        let initial: u128 = self.initial_delay.as_nanos();
        let steps: usize = attempt - 1;
        match self.backoff_strategy {
            BackoffStrategy::Fixed => Some(initial),
            BackoffStrategy::Exponential { multiplier } => {
                proof {
                    lemma_power_nonnegative(multiplier as nat, steps as nat);
                    assert(initial * pow(multiplier as int, steps as nat) >= 0)
                        by (nonlinear_arith)
                        requires
                            initial >= 0,
                            pow(multiplier as int, steps as nat) >= 0,
                    ;
                }
                scaled_power(initial, multiplier, steps)
            },
            BackoffStrategy::Linear { increment } => {
                let step: u128 = increment.as_nanos();
                proof {
                    assert(step * steps >= 0) by (nonlinear_arith)
                        requires
                            step >= 0,
                            steps >= 0,
                    ;
                }
                match step.checked_mul(steps as u128) {
                    Some(growth) => initial.checked_add(growth),
                    None => None,
                }
            },
        }
    }

    /// The delay before retry number `attempt`, counted from one. There is
    /// none for attempt zero, nor where the delay is longer than any
    /// `Duration`.
    pub fn delay_for_attempt(&self, attempt: usize) -> (delay: Option<Duration>)
        ensures
            delay is Some <==> attempt >= 1 && self.delay_nanos(attempt as nat)
                <= MAX_DURATION_NANOS,
            delay matches Some(d) ==> duration_nanos(d) == self.delay_nanos(attempt as nat),
    {
        match self.checked_delay_nanos(attempt) {
            Some(nanos) => duration_from_nanos(nanos),
            None => None,
        }
    }

    /// The wait before retry number `attempt` in nanoseconds: its delay,
    /// cut down to the longest `Duration` where it is beyond that.
    pub open spec fn wait_nanos(&self, attempt: nat) -> nat {
        if self.delay_nanos(attempt) <= MAX_DURATION_NANOS {
            self.delay_nanos(attempt)
        } else {
            MAX_DURATION_NANOS as nat
        }
    }

    /// The wait before retry number `attempt`, which is at least one.
    pub(crate) fn wait_for_attempt(&self, attempt: usize) -> (delay: Duration)
        requires
            attempt >= 1,
        ensures
            duration_nanos(delay) == self.wait_nanos(attempt as nat),
    {
        let nanos: u128 = match self.checked_delay_nanos(attempt) {
            Some(n) => n,
            None => u128::MAX,
        };
        duration_from_nanos_saturating(nanos)
    }

    /// Under exponential backoff the first delay is the initial delay,
    /// every later one is `multiplier` times the one before it, and so the
    /// delay before retry `attempt` is the initial delay times
    /// `multiplier^(attempt - 1)`.
    pub proof fn lemma_exponential_delays(&self, attempt: nat)
        requires
            self.backoff_strategy is Exponential,
            attempt >= 1,
        ensures
            self.delay_nanos(1) == duration_nanos(self.initial_delay),
            self.delay_nanos(attempt + 1) == self.backoff_strategy->multiplier * self.delay_nanos(
                attempt,
            ),
            self.delay_nanos(attempt) == duration_nanos(self.initial_delay) * pow(
                self.backoff_strategy->multiplier as int,
                (attempt - 1) as nat,
            ),
    {
        let initial = duration_nanos(self.initial_delay);
        let m = self.backoff_strategy->multiplier;
        lemma_pow0(m as int);
        lemma_power_nonnegative(m as nat, (attempt - 1) as nat);
        lemma_power_nonnegative(m as nat, attempt);
        lemma_power_step(initial as int, m as int, (attempt - 1) as nat);
        assert(initial * pow(m as int, (attempt - 1) as nat) >= 0) by (nonlinear_arith)
            requires
                initial >= 0,
                pow(m as int, (attempt - 1) as nat) >= 0,
        ;
        assert(initial * pow(m as int, attempt) >= 0) by (nonlinear_arith)
            requires
                initial >= 0,
                pow(m as int, attempt) >= 0,
        ;
        assert((initial * pow(m as int, (attempt - 1) as nat)) * m == m * (initial * pow(
            m as int,
            (attempt - 1) as nat,
        ))) by (nonlinear_arith);
    }

    /// Under linear backoff the first delay is the initial delay, every
    /// later one is `increment` longer than the one before it, and so the
    /// delay before retry `attempt` is the initial delay and `attempt - 1`
    /// increments.
    pub proof fn lemma_linear_delays(&self, attempt: nat)
        requires
            self.backoff_strategy is Linear,
            attempt >= 1,
        ensures
            self.delay_nanos(1) == duration_nanos(self.initial_delay),
            self.delay_nanos(attempt + 1) == self.delay_nanos(attempt) + duration_nanos(
                self.backoff_strategy->increment,
            ),
            self.delay_nanos(attempt) == duration_nanos(self.initial_delay) + duration_nanos(
                self.backoff_strategy->increment,
            ) * (attempt - 1),
    {
        let step = duration_nanos(self.backoff_strategy->increment);
        assert(step * ((attempt + 1 - 1) as nat) == step * ((attempt - 1) as nat) + step)
            by (nonlinear_arith)
            requires
                attempt >= 1,
        ;
        assert(step * 0 == 0) by (nonlinear_arith);
    }

    /// Under fixed backoff every delay is the initial delay.
    pub proof fn lemma_fixed_delays(&self, attempt: nat)
        requires
            self.backoff_strategy is Fixed,
        ensures
            self.delay_nanos(attempt) == duration_nanos(self.initial_delay),
    {
    }
}

/// A power of a natural number is not negative.
proof fn lemma_power_nonnegative(base: nat, e: nat)
    ensures
        pow(base as int, e) >= 0,
    decreases e,
{
    reveal(pow);
    if e > 0 {
        lemma_power_nonnegative(base, (e - 1) as nat);
        assert(base * pow(base as int, (e - 1) as nat) >= 0) by (nonlinear_arith)
            requires
                base >= 0,
                pow(base as int, (e - 1) as nat) >= 0,
        ;
    }
}

} // verus!
