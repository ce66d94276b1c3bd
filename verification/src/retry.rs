//! The retry policy: whether a failed attempt is tried again, and after how long.

use crate::classify::{ClassifiedOutcome, RetryReason};
use crate::error::WhatsAppError;
use vstd::arithmetic::power2::{lemma_pow2_pos, lemma_pow2_unfold, pow2};
use vstd::arithmetic::power::lemma_pow0;
use vstd::prelude::*;

verus! {

/// How the delay between attempts grows.
#[derive(Debug, Clone, Copy, PartialEq, Eq, Structural)]
pub enum Backoff {
    /// The same delay before every retry.
    Fixed,
    /// The delay doubles with every retry.
    Exponential,
}

/// The settings of the retry policy.
#[derive(Debug, Clone, Copy, PartialEq, Eq, Structural)]
pub struct RetryConfig {
    /// Number of retries after the first attempt.
    pub max_retries: u32,
    /// Delay before the first retry, in milliseconds.
    pub base_delay_ms: u64,
    /// Whether a throttled request (HTTP 429) is tried again.
    pub retry_on_throttle: bool,
    /// How the delay grows from one retry to the next.
    pub backoff: Backoff,
    /// Upper bound of any delay the policy computes, in milliseconds.
    pub max_delay_ms: u64,
}

/// The record of one HTTP round trip.
#[derive(Debug, Clone, PartialEq, Eq)]
pub struct DispatchAttempt {
    /// Index of the attempt, starting at zero.
    pub index: u32,
    /// Time since the call began, in milliseconds.
    pub elapsed_ms: u64,
    /// What the attempt led to.
    pub outcome: ClassifiedOutcome,
}

/// What the policy decides after an attempt.
#[derive(Debug, Clone, PartialEq, Eq)]
pub enum RetryDecision {
    /// The call succeeded: hand the payload back.
    Return(String),
    /// The call failed for good: hand the error back.
    Fail(WhatsAppError),
    /// Try again after `delay_ms` milliseconds.
    Retry { delay_ms: u64 },
    /// The failure might have passed, but no retry is left.
    Exhausted { reason: RetryReason },
}

/// The smaller of two numbers.
pub open spec fn at_most(a: int, cap: int) -> int {
    if a <= cap {
        a
    } else {
        cap
    }
}

/// The delay before the retry that follows the attempt `index`, where the
/// server gave no hint: the base delay, doubled `index` times if the backoff
/// is exponential, and never more than the upper bound.
pub open spec fn backoff_delay(config: RetryConfig, index: u32) -> int {
    match config.backoff {
        Backoff::Fixed => at_most(config.base_delay_ms as int, config.max_delay_ms as int),
        Backoff::Exponential => at_most(
            config.base_delay_ms * pow2(index as nat),
            config.max_delay_ms as int,
        ),
    }
}

/// The delay before the next attempt: the one the server asked for, else the
/// one the backoff gives.
pub open spec fn delay_before_retry(
    config: RetryConfig,
    index: u32,
    server_delay_ms: Option<u64>,
) -> int {
    match server_delay_ms {
        Some(delay) => delay as int,
        None => backoff_delay(config, index),
    }
}

/// Milliseconds as whole seconds, rounded up.
pub open spec fn whole_secs(ms: int) -> int {
    (ms + 999) / 1000
}

/// The decision after the attempt `index` led to `outcome`.
pub open spec fn decision_for(config: RetryConfig, index: u32, outcome: ClassifiedOutcome)
    -> RetryDecision {
    match outcome {
        ClassifiedOutcome::Success(payload) => RetryDecision::Return(payload),
        ClassifiedOutcome::Fatal(error) => RetryDecision::Fail(error),
        ClassifiedOutcome::Retryable { reason, server_delay_ms } => {
            let delay = delay_before_retry(config, index, server_delay_ms);
            if reason == RetryReason::Throttled && !config.retry_on_throttle {
                RetryDecision::Fail(
                    WhatsAppError::RateLimitExceeded { retry_after_secs: whole_secs(delay) as u64 },
                )
            } else if index < config.max_retries {
                RetryDecision::Retry { delay_ms: delay as u64 }
            } else {
                RetryDecision::Exhausted { reason }
            }
        },
    }
}

/// Two to the power of zero is one.
pub proof fn lemma_pow2_zero()
    ensures
        pow2(0) == 1,
{
    lemma_pow0(2);
}

/// Doubling never shrinks: the power of two grows with its exponent.
pub proof fn lemma_pow2_grows(a: nat, b: nat)
    requires
        a <= b,
    ensures
        0 < pow2(a) <= pow2(b),
    decreases b - a,
{
    lemma_pow2_pos(a);
    if a < b {
        lemma_pow2_grows(a, (b - 1) as nat);
        lemma_pow2_unfold(b);
    }
}

/// The backoff is a delay: it is never negative and never above the bound.
pub proof fn lemma_backoff_in_range(config: RetryConfig, index: u32)
    ensures
        0 <= backoff_delay(config, index) <= config.max_delay_ms,
{
    lemma_pow2_pos(index as nat);
    assert(config.base_delay_ms * pow2(index as nat) >= 0) by (nonlinear_arith)
        requires
            config.base_delay_ms >= 0,
            pow2(index as nat) > 0,
    ;
}

/// Without hints of the server the delays of successive retries of one call
/// never shrink.
pub proof fn lemma_backoff_never_shrinks(config: RetryConfig, earlier: u32, later: u32)
    requires
        earlier <= later,
    ensures
        backoff_delay(config, earlier) <= backoff_delay(config, later),
{
    lemma_pow2_grows(earlier as nat, later as nat);
    assert(config.base_delay_ms * pow2(earlier as nat) <= config.base_delay_ms * pow2(
        later as nat,
    )) by (nonlinear_arith)
        requires
            config.base_delay_ms >= 0,
            pow2(earlier as nat) <= pow2(later as nat),
    ;
}

/// A delay the server asked for overrides the configured one: while a retry
/// is left and allowed, the next attempt waits exactly that long.
pub proof fn lemma_server_delay_overrides(
    config: RetryConfig,
    index: u32,
    reason: RetryReason,
    delay_ms: u64,
)
    requires
        index < config.max_retries,
        reason == RetryReason::Throttled ==> config.retry_on_throttle,
    ensures
        decision_for(
            config,
            index,
            ClassifiedOutcome::Retryable { reason, server_delay_ms: Some(delay_ms) },
        ) == (RetryDecision::Retry { delay_ms }),
{
}

/// With retries on throttling switched off a throttled attempt is final,
/// whatever its index and whatever the server asked for.
pub proof fn lemma_throttle_is_final(config: RetryConfig, index: u32, server_delay_ms: Option<u64>)
    requires
        !config.retry_on_throttle,
    ensures
        decision_for(
            config,
            index,
            ClassifiedOutcome::Retryable { reason: RetryReason::Throttled, server_delay_ms },
        ) matches RetryDecision::Fail(WhatsAppError::RateLimitExceeded { .. }),
{
}

/// A retry is decided only while the index of the attempt is below the
/// number of retries.
pub proof fn lemma_retry_only_below_limit(
    config: RetryConfig,
    index: u32,
    outcome: ClassifiedOutcome,
)
    ensures
        decision_for(config, index, outcome) is Retry ==> index < config.max_retries,
{
}

/// Decides what follows an attempt.
pub struct RetryPolicy;

impl RetryPolicy {
    /// The delay before the retry that follows the attempt `index`, where the
    /// server gave no hint.
    pub fn backoff(config: &RetryConfig, index: u32) -> (delay_ms: u64)
        ensures
            delay_ms == backoff_delay(*config, index),
    {
        let cap = config.max_delay_ms;
        let base = config.base_delay_ms;
        let mut delay: u64 = if base <= cap {
            base
        } else {
            cap
        };
        match config.backoff {
            Backoff::Fixed => delay,
            Backoff::Exponential => {
                let mut doubled: u32 = 0;
                proof {
                    lemma_pow2_zero();
                }
                while doubled < index && 0 < delay && delay < cap
                    invariant
                        doubled <= index,
                        cap == config.max_delay_ms,
                        base == config.base_delay_ms,
                        delay == at_most(base * pow2(doubled as nat), cap as int),
                    decreases index - doubled,
                {
                    proof {
                        lemma_pow2_unfold((doubled + 1) as nat);
                        assert(base * pow2((doubled + 1) as nat) == 2 * (base * pow2(
                            doubled as nat,
                        ))) by (nonlinear_arith)
                            requires
                                pow2((doubled + 1) as nat) == 2 * pow2(doubled as nat),
                        ;
                    }
                    delay = if delay > cap / 2 {
                        cap
                    } else {
                        delay * 2
                    };
                    doubled = doubled + 1;
                }
                proof {
                    lemma_pow2_grows(doubled as nat, index as nat);
                    let reached = pow2(doubled as nat);
                    let wanted = pow2(index as nat);
                    assert(base * reached <= base * wanted) by (nonlinear_arith)
                        requires
                            base >= 0,
                            reached <= wanted,
                    ;
                    if delay == 0 && base != 0 && doubled < index {
                        assert(base * reached > 0) by (nonlinear_arith)
                            requires
                                base > 0,
                                reached > 0,
                        ;
                    }
                    if base == 0 {
                        assert(base * wanted == 0) by (nonlinear_arith)
                            requires
                                base == 0,
                        ;
                    }
                }
                delay
            },
        }
    }

    /// Decides what follows an attempt.
    ///
    /// A success and a fatal error end the call. A failure that may pass is
    /// tried again while the index of the attempt is below `max_retries`,
    /// after the delay the server asked for or, without one, after the
    /// backoff. A throttled attempt ends the call at once where retries on
    /// throttling are switched off. Without a retry left the call ends as
    /// exhausted.
    pub fn decide(config: &RetryConfig, attempt: DispatchAttempt) -> (decision: RetryDecision)
        ensures
            decision == decision_for(*config, attempt.index, attempt.outcome),
    {
        let DispatchAttempt { index, elapsed_ms: _, outcome } = attempt;
        match outcome {
            ClassifiedOutcome::Success(payload) => RetryDecision::Return(payload),
            ClassifiedOutcome::Fatal(error) => RetryDecision::Fail(error),
            ClassifiedOutcome::Retryable { reason, server_delay_ms } => {
                let delay: u64 = match server_delay_ms {
                    Some(delay) => delay,
                    None => Self::backoff(config, index),
                };
                let throttled = match reason {
                    RetryReason::Throttled => true,
                    _ => false,
                };
                if throttled && !config.retry_on_throttle {
                    let retry_after_secs: u64 = delay / 1000 + if delay % 1000 == 0 {
                        0
                    } else {
                        1
                    };
                    RetryDecision::Fail(WhatsAppError::RateLimitExceeded { retry_after_secs })
                } else if index < config.max_retries {
                    RetryDecision::Retry { delay_ms: delay }
                } else {
                    RetryDecision::Exhausted { reason }
                }
            },
        }
    }
}

} // verus!
