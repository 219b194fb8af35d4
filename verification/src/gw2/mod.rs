//! Talking to the Guild Wars 2 API: how failures are classified, when a request
//! is retried, and where names come from when the API has none.
pub mod doorway;
pub mod equipment;
pub mod error;
pub mod fetch;
pub mod lookup;
pub mod missing;
pub mod retry;
pub mod static_names;
