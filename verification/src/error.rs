//! The error taxonomy for upstream (CalDAV) failures, and how each error
//! surfaces as an HTTP status code. Upstream failures never abort the
//! service: every one maps to an error response.

use vstd::prelude::*;

verus! {

/// A failure of the upstream CalDAV fetch, as the service classifies it.
#[derive(Clone, Copy, Debug, PartialEq, Eq, Structural)]
pub enum UpstreamError {
    /// The upstream server could not be reached, or the transport failed.
    Unavailable,
    /// The upstream server rejected the credentials.
    Auth,
    /// The upstream response could not be parsed.
    Parse,
}

impl UpstreamError {
    /// The HTTP status code this error surfaces as: bad-gateway for
    /// transport and parse failures, unauthorized for rejected credentials.
    pub open spec fn spec_status_code(self) -> u16 {
        match self {
            UpstreamError::Unavailable => 502,
            UpstreamError::Auth => 401,
            UpstreamError::Parse => 502,
        }
    }

    /// The HTTP status code of the error response for this failure.
    pub fn status_code(&self) -> (code: u16)
        ensures
            code == self.spec_status_code(),
    {
        match self {
            UpstreamError::Unavailable => 502,
            UpstreamError::Auth => 401,
            UpstreamError::Parse => 502,
        }
    }

    /// A short description of the failure, for an error response body.
    pub fn message(&self) -> (msg: &'static str)
        ensures
            self is Unavailable ==> msg@ == "upstream calendar server unavailable"@,
            self is Auth ==> msg@ == "upstream calendar server rejected credentials"@,
            self is Parse ==> msg@ == "upstream calendar response could not be parsed"@,
    {
        match self {
            UpstreamError::Unavailable => "upstream calendar server unavailable",
            UpstreamError::Auth => "upstream calendar server rejected credentials",
            UpstreamError::Parse => "upstream calendar response could not be parsed",
        }
    }
}

/// Every upstream failure surfaces as a client-visible HTTP error
/// status: always 502 (bad gateway) or 401 (unauthorized), and in any
/// case within the error range, never a success code and never a crash.
pub proof fn lemma_upstream_error_always_surfaced(e: UpstreamError)
    ensures
        e.spec_status_code() == 502 || e.spec_status_code() == 401,
        400 <= e.spec_status_code() < 600,
{
}

} // verus!
