//! Fetching from the API: the client handle, and the retry policy around a fetcher.
use vstd::prelude::*;
use std::sync::Arc;
use crate::gw2::error::{Error, ErrorKind};

verus! {

/// A fetcher that sends its requests through a shared client; `AUTH` tells whether
/// the client carries an API key.
pub struct Gw2LibFetcher<Req, const AUTH: bool> {
    client: Arc<Req>,
}

impl<Req, const AUTH: bool> Gw2LibFetcher<Req, AUTH> {
    pub closed spec fn spec_client(&self) -> Arc<Req> {
        self.client
    }

    /// A fetcher that uses `client`.
    pub fn new(client: Arc<Req>) -> (r: Self)
        ensures
            r.spec_client() == client,
    {
        Gw2LibFetcher { client }
    }

    /// The client of the fetcher.
    pub fn client(&self) -> (r: &Arc<Req>)
        ensures
            *r == self.spec_client(),
    {
        &self.client
    }
}

impl<Req, const AUTH: bool> Clone for Gw2LibFetcher<Req, AUTH> {
    fn clone(&self) -> (r: Self)
        ensures
            r.spec_client() == self.spec_client(),
    {
        Gw2LibFetcher { client: Arc::clone(&self.client) }
    }
}

/// What a bulk request comes to: the objects it returned, or, when the API knows
/// none of them, no objects rather than an error; other failures stay failures.
pub fn settle_bulk<T>(result: Result<Vec<T>, Error>) -> (r: Result<Vec<T>, Error>)
    ensures
        match result {
            Ok(v) => r == Ok::<Vec<T>, Error>(v),
            Err(e) => if e.spec_kind() == ErrorKind::NotFound {
                r matches Ok(v) && v@.len() == 0
            } else {
                r == Err::<Vec<T>, Error>(e)
            },
        },
{
    match result {
        Ok(v) => Ok(v),
        Err(e) => if e.is_not_found() {
            Ok(Vec::new())
        } else {
            Err(e)
        },
    }
}

/// How many times a failed request is tried again, unless set otherwise.
pub const DEFAULT_MAX_RETRIES: usize = 10;

/// The base of the backoff between tries, in milliseconds, unless set otherwise.
pub const DEFAULT_SLEEP_MILLIS: u64 = 1000;

/// A fetcher whose transient failures are tried again, up to `max_retries` times,
/// with an exponential backoff from `sleep_millis`.
#[derive(Clone)]
pub struct Retry<F> {
    inner: F,
    max_retries: usize,
    sleep_millis: u64,
}

impl<F> Retry<F> {
    pub closed spec fn spec_inner(&self) -> F {
        self.inner
    }

    pub closed spec fn spec_max_retries(&self) -> usize {
        self.max_retries
    }

    pub closed spec fn spec_sleep_millis(&self) -> u64 {
        self.sleep_millis
    }

    /// Retries around `inner` with the default number of retries and backoff.
    pub fn new(inner: F) -> (r: Self)
        ensures
            r.spec_inner() == inner,
            r.spec_max_retries() == DEFAULT_MAX_RETRIES,
            r.spec_sleep_millis() == DEFAULT_SLEEP_MILLIS,
    {
        Retry { inner, max_retries: DEFAULT_MAX_RETRIES, sleep_millis: DEFAULT_SLEEP_MILLIS }
    }

    /// The same policy with `max_retries` retries.
    pub fn with_max_retries(self, max_retries: usize) -> (r: Self)
        ensures
            r.spec_inner() == self.spec_inner(),
            r.spec_max_retries() == max_retries,
            r.spec_sleep_millis() == self.spec_sleep_millis(),
    {
        let mut r = self;
        r.max_retries = max_retries;
        r
    }

    /// The same policy with a backoff from `sleep_millis`.
    pub fn with_sleep_millis(self, sleep_millis: u64) -> (r: Self)
        ensures
            r.spec_inner() == self.spec_inner(),
            r.spec_max_retries() == self.spec_max_retries(),
            r.spec_sleep_millis() == sleep_millis,
    {
        let mut r = self;
        r.sleep_millis = sleep_millis;
        r
    }

    /// The fetcher that is retried.
    pub fn inner(&self) -> (r: &F)
        ensures
            *r == self.spec_inner(),
    {
        &self.inner
    }

    /// The number of retries.
    pub fn max_retries(&self) -> (r: usize)
        ensures
            r == self.spec_max_retries(),
    {
        self.max_retries
    }

    /// The base of the backoff, in milliseconds.
    pub fn sleep_millis(&self) -> (r: u64)
        ensures
            r == self.spec_sleep_millis(),
    {
        self.sleep_millis
    }

    /// Whether a request that failed with `err`, after `retries_done` retries, is
    /// tried again: only a transient failure, and only while retries are left.
    pub fn should_retry(&self, retries_done: usize, err: &Error) -> (r: bool)
        ensures
            r == (err.spec_kind() == ErrorKind::Transient && retries_done
                < self.spec_max_retries()),
    {
        err.is_transient() && retries_done < self.max_retries
    }
}

} // verus!
