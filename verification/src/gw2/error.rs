//! Errors of API requests and how they are classified.
use vstd::prelude::*;

verus! {

/// The class of a failed request.
#[derive(Debug, Clone, Copy, PartialEq, Eq, Structural)]
pub enum ErrorKind {
    /// The API does not know the requested object.
    NotFound,
    /// The request may succeed when tried again.
    Transient,
    /// Trying again will not help.
    Permanent,
}

/// What a failed request reports, as far as its class depends on it.
#[derive(Debug, Clone, Copy, PartialEq, Eq, Structural)]
pub enum EndpointFailure {
    /// The API answered with an error status.
    ApiStatus(u16),
    /// The API answered that the client sends too many requests.
    RateLimited,
    /// The client's rate limiter stopped working.
    RateLimiterCrashed,
    /// The client's rate limiter had no room for the request.
    RateLimiterBucketExceeded,
    /// The request did not get an answer.
    RequestFailed,
    /// Anything else (missing authentication, an answer that does not parse, ...).
    Other,
}

/// A status of the `5xx` class.
pub open spec fn is_server_error(status: u16) -> bool {
    500 <= status <= 599
}

/// The class of a failure: `404` is not found; rate limiting, failures of the rate
/// limiter or of the request itself, and server errors are transient; the rest is
/// permanent.
pub open spec fn failure_kind(f: EndpointFailure) -> ErrorKind {
    match f {
        EndpointFailure::ApiStatus(s) => if s == 404 {
            ErrorKind::NotFound
        } else if is_server_error(s) {
            ErrorKind::Transient
        } else {
            ErrorKind::Permanent
        },
        EndpointFailure::RateLimited => ErrorKind::Transient,
        EndpointFailure::RateLimiterCrashed => ErrorKind::Transient,
        EndpointFailure::RateLimiterBucketExceeded => ErrorKind::Transient,
        EndpointFailure::RequestFailed => ErrorKind::Transient,
        EndpointFailure::Other => ErrorKind::Permanent,
    }
}

impl ErrorKind {
    /// The name of the class, as the error message writes it.
    pub open spec fn spec_name(self) -> Seq<char> {
        match self {
            ErrorKind::NotFound => "NotFound"@,
            ErrorKind::Transient => "Transient"@,
            ErrorKind::Permanent => "Permanent"@,
        }
    }

    /// The name of the class, as the error message writes it.
    pub fn name(self) -> (r: &'static str)
        ensures
            r@ == self.spec_name(),
    {
        match self {
            ErrorKind::NotFound => "NotFound",
            ErrorKind::Transient => "Transient",
            ErrorKind::Permanent => "Permanent",
        }
    }

    /// The class of a failure (see `failure_kind`).
    pub fn from_failure(f: &EndpointFailure) -> (r: ErrorKind)
        ensures
            r == failure_kind(*f),
    {
        match f {
            EndpointFailure::ApiStatus(s) => if *s == 404 {
                ErrorKind::NotFound
            } else if 500 <= *s && *s <= 599 {
                ErrorKind::Transient
            } else {
                ErrorKind::Permanent
            },
            EndpointFailure::RateLimited => ErrorKind::Transient,
            EndpointFailure::RateLimiterCrashed => ErrorKind::Transient,
            EndpointFailure::RateLimiterBucketExceeded => ErrorKind::Transient,
            EndpointFailure::RequestFailed => ErrorKind::Transient,
            EndpointFailure::Other => ErrorKind::Permanent,
        }
    }
}

/// A failed request: its class, the endpoint it went to and how it was made.
#[derive(Debug)]
pub struct Error {
    kind: ErrorKind,
    endpoint: String,
    request: String,
}

impl Error {
    pub closed spec fn spec_kind(&self) -> ErrorKind {
        self.kind
    }

    pub closed spec fn spec_endpoint(&self) -> Seq<char> {
        self.endpoint@
    }

    pub closed spec fn spec_request(&self) -> Seq<char> {
        self.request@
    }

    /// The error of a request to `endpoint`, made as `request`, that failed with
    /// `failure`; its class is that of the failure.
    pub fn from_failure(endpoint: &str, request: String, failure: EndpointFailure) -> (r: Error)
        ensures
            r.spec_kind() == failure_kind(failure),
            r.spec_endpoint() == endpoint@,
            r.spec_request() == request@,
    {
        Error {
            kind: ErrorKind::from_failure(&failure),
            endpoint: <String as StringExecFns>::from_str(endpoint),
            request,
        }
    }

    /// An error of the given class, with no endpoint or request.
    pub fn from_kind(kind: ErrorKind) -> (r: Error)
        ensures
            r.spec_kind() == kind,
            r.spec_endpoint() == Seq::<char>::empty(),
            r.spec_request() == Seq::<char>::empty(),
    {
        Error { kind, endpoint: String::new(), request: String::new() }
    }

    /// The class of the error.
    pub fn kind(&self) -> (r: ErrorKind)
        ensures
            r == self.spec_kind(),
    {
        self.kind
    }

    /// The endpoint the request went to.
    pub fn endpoint(&self) -> (r: &str)
        ensures
            r@ == self.spec_endpoint(),
    {
        self.endpoint.as_str()
    }

    /// How the request was made.
    pub fn request(&self) -> (r: &str)
        ensures
            r@ == self.spec_request(),
    {
        self.request.as_str()
    }

    /// What the error says: `GET`, the endpoint, the request, and the class.
    pub fn message(&self) -> (r: String)
        ensures
            r@ == "GET "@ + self.spec_endpoint() + " "@ + self.spec_request() + ": "@
                + self.spec_kind().spec_name(),
    {
        let mut s = <String as StringExecFns>::from_str("GET ");
        s.append(self.endpoint.as_str());
        s.append(" ");
        s.append(self.request.as_str());
        s.append(": ");
        s.append(self.kind.name());
        s
    }

    /// Whether the API does not know the requested object.
    pub fn is_not_found(&self) -> (r: bool)
        ensures
            r == (self.spec_kind() == ErrorKind::NotFound),
    {
        matches!(self.kind, ErrorKind::NotFound)
    }

    /// Whether the request may succeed when tried again.
    pub fn is_transient(&self) -> (r: bool)
        ensures
            r == (self.spec_kind() == ErrorKind::Transient),
    {
        matches!(self.kind, ErrorKind::Transient)
    }
}

} // verus!
