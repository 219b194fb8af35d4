//! A retry policy on its own: how many retries, and the backoff between them.
use vstd::prelude::*;
use crate::gw2::error::{Error, ErrorKind};

verus! {

/// Up to `max_retries` retries of a transient failure, with an exponential backoff
/// from `sleep_millis` milliseconds.
#[derive(Debug, Clone, Copy, PartialEq, Eq, Structural)]
pub struct Retry {
    pub max_retries: usize,
    pub sleep_millis: u64,
}

impl Retry {
    /// The policy with the given number of retries and backoff.
    pub fn new(max_retries: usize, sleep_millis: u64) -> (r: Retry)
        ensures
            r.max_retries == max_retries,
            r.sleep_millis == sleep_millis,
    {
        Retry { max_retries, sleep_millis }
    }

    /// Whether a request that failed with `err`, after `retries_done` retries, is
    /// tried again: only a retryable failure, and only while retries are left.
    pub fn should_retry(&self, retries_done: usize, err: &Error) -> (r: bool)
        ensures
            r == (err.spec_kind() == ErrorKind::Transient && retries_done < self.max_retries),
    {
        retryable(err) && retries_done < self.max_retries
    }
}

impl Default for Retry {
    /// Ten retries, with a backoff from one second.
    fn default() -> (r: Retry)
        ensures
            r.max_retries == 10,
            r.sleep_millis == 1000,
    {
        Retry::new(10, 1000)
    }
}

/// Whether a failure is worth another try: it is transient.
pub fn retryable(e: &Error) -> (r: bool)
    ensures
        r == (e.spec_kind() == ErrorKind::Transient),
{
    e.is_transient()
}

} // verus!
