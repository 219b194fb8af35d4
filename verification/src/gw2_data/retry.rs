//! Retrying a request with a linear backoff: the `n`-th retry waits `n` times the
//! base delay.
use vstd::prelude::*;
use crate::gw2::error::{is_server_error, EndpointFailure};

verus! {

/// Up to `max_retries` retries of a retryable failure; the retry after attempt `a`
/// (counted from `0`) waits `(a + 1) * sleep_millis` milliseconds.
#[derive(Debug, Clone, Copy, PartialEq, Eq, Structural)]
pub struct Retry {
    pub max_retries: u32,
    pub sleep_millis: u64,
}

/// Whether a failure is worth another try: a server error, rate limiting, a failure
/// of the rate limiter, or a request that got no answer.
pub open spec fn retryable_failure(f: EndpointFailure) -> bool {
    match f {
        EndpointFailure::ApiStatus(s) => is_server_error(s),
        EndpointFailure::RateLimited => true,
        EndpointFailure::RateLimiterCrashed => true,
        EndpointFailure::RateLimiterBucketExceeded => true,
        EndpointFailure::RequestFailed => true,
        EndpointFailure::Other => false,
    }
}

impl Retry {
    /// The policy with the given number of retries and base delay.
    pub fn new(max_retries: u32, sleep_millis: u64) -> (r: Retry)
        ensures
            r.max_retries == max_retries,
            r.sleep_millis == sleep_millis,
    {
        Retry { max_retries, sleep_millis }
    }

    /// Whether a failure is worth another try (see `retryable_failure`).
    pub fn should_retry(&self, f: &EndpointFailure) -> (r: bool)
        ensures
            r == retryable_failure(*f),
    {
        match f {
            EndpointFailure::ApiStatus(s) => 500 <= *s && *s <= 599,
            EndpointFailure::RateLimited => true,
            EndpointFailure::RateLimiterCrashed => true,
            EndpointFailure::RateLimiterBucketExceeded => true,
            EndpointFailure::RequestFailed => true,
            EndpointFailure::Other => false,
        }
    }

    /// What follows attempt `attempt` (counted from `0`) failing with `f`: the delay
    /// in milliseconds before the next attempt, or `None` when the failure is final
    /// (not retryable, or no retry left).
    pub fn after_failure(&self, attempt: u32, f: &EndpointFailure) -> (r: Option<u128>)
        ensures
            retryable_failure(*f) && attempt < self.max_retries ==> r == Some(
                ((attempt + 1) * self.sleep_millis) as u128,
            ),
            !(retryable_failure(*f) && attempt < self.max_retries) ==> r is None,
    {
        if self.should_retry(f) && attempt < self.max_retries {
            let factor: u128 = attempt as u128 + 1;
            let base: u128 = self.sleep_millis as u128;
            assert(factor * base <= 0x1_0000_0000u128 * 0xffff_ffff_ffff_ffffu128) by (nonlinear_arith)
                requires
                    factor <= 0x1_0000_0000u128,
                    base <= 0xffff_ffff_ffff_ffffu128,
            ;
            Some(factor * base)
        } else {
            None
        }
    }
}

impl Default for Retry {
    /// Ten retries, with a base delay of one second.
    fn default() -> (r: Retry)
        ensures
            r.max_retries == 10,
            r.sleep_millis == 1000,
    {
        Retry::new(10, 1000)
    }
}

/// Attempts are numbered from `0`, and attempt `max_retries` is the last: whatever
/// the failures, no more than `max_retries + 1` attempts are made.
pub proof fn law_retry_bounded(policy: Retry, attempt: u32, f: EndpointFailure)
    requires
        attempt >= policy.max_retries,
    ensures
        !(retryable_failure(f) && attempt < policy.max_retries),
{
}

} // verus!
