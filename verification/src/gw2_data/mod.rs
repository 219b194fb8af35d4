//! Retrying requests to the Guild Wars 2 API with a linear backoff.
pub mod retry;
