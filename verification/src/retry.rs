//! Bounded, fixed-delay retry policies.
//!
//! A policy grants a fixed number of attempts with a fixed delay between
//! them. [`run_retry`] evaluates a policy against a recorded sequence of
//! attempt outcomes, so the retry discipline itself is executable and
//! checkable without a device: entry `i` of the record says whether attempt
//! `i` succeeds, and attempts beyond the record fail.

use vstd::prelude::*;

verus! {

use crate::constants::{
    DEVICE_INIT_RETRY_DELAY_MS, MAX_DEVICE_INIT_RETRIES, MAX_RETRIES, RETRY_DELAY_MS,
};

/// A bounded retry discipline: how many attempts in all, and how long to
/// wait between two of them.
#[derive(Debug, Clone, Copy, PartialEq, Eq, Structural)]
pub struct RetryPolicy {
    pub max_attempts: u32,
    pub delay_ms: u64,
}

/// The policy of one low-level event write.
pub fn write_retry_policy() -> (p: RetryPolicy)
    ensures
        p.max_attempts == MAX_RETRIES,
        p.delay_ms == RETRY_DELAY_MS,
{
    RetryPolicy { max_attempts: MAX_RETRIES, delay_ms: RETRY_DELAY_MS }
}

/// The policy of virtual-device creation.
pub fn device_retry_policy() -> (p: RetryPolicy)
    ensures
        p.max_attempts == MAX_DEVICE_INIT_RETRIES,
        p.delay_ms == DEVICE_INIT_RETRY_DELAY_MS,
{
    RetryPolicy { max_attempts: MAX_DEVICE_INIT_RETRIES, delay_ms: DEVICE_INIT_RETRY_DELAY_MS }
}

/// After `attempts_made` failed attempts: the delay before the next attempt,
/// or nothing once the policy is exhausted.
pub fn next_attempt_delay(p: &RetryPolicy, attempts_made: u32) -> (r: Option<u64>)
    ensures
        r == if attempts_made < p.max_attempts {
            Some(p.delay_ms)
        } else {
            None::<u64>
        },
{
    if attempts_made < p.max_attempts {
        Some(p.delay_ms)
    } else {
        None
    }
}

/// What evaluating a retry policy produced: how many attempts ran, and
/// whether one of them succeeded.
#[derive(Debug, Clone, Copy, PartialEq, Eq, Structural)]
pub struct RetryOutcome {
    pub attempts: u32,
    pub success: bool,
}

/// Attempt `i` of a recorded outcome sequence succeeds.
pub open spec fn spec_attempt_ok(outcomes: Seq<bool>, i: int) -> bool {
    0 <= i < outcomes.len() && outcomes[i]
}

/// Runs a retry policy against recorded attempt outcomes: attempts run one
/// after the other until the first success, and no attempt runs after the
/// policy's budget is spent.
pub fn run_retry(policy: &RetryPolicy, outcomes: &Vec<bool>) -> (r: RetryOutcome)
    requires
        policy.max_attempts >= 1,
    ensures
        r.success == (exists|i: int|
            0 <= i < policy.max_attempts && spec_attempt_ok(outcomes@, i)),
        r.success ==> 1 <= r.attempts <= policy.max_attempts && spec_attempt_ok(
            outcomes@,
            r.attempts - 1,
        ) && (forall|j: int| 0 <= j < r.attempts - 1 ==> !spec_attempt_ok(outcomes@, j)),
        !r.success ==> r.attempts == policy.max_attempts,
{
    let mut attempt: u32 = 0;
    while attempt < policy.max_attempts
        invariant
            attempt <= policy.max_attempts,
            forall|j: int| 0 <= j < attempt ==> !spec_attempt_ok(outcomes@, j),
        decreases policy.max_attempts - attempt,
    {
        let ok = (attempt as usize) < outcomes.len() && outcomes[attempt as usize];
        if ok {
            proof {
                assert(spec_attempt_ok(outcomes@, attempt as int));
            }
            return RetryOutcome { attempts: attempt + 1, success: true };
        }
        attempt = attempt + 1;
    }
    RetryOutcome { attempts: policy.max_attempts, success: false }
}

} // verus!
