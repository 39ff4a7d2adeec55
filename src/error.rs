//! The errors a request can end in.
use vstd::prelude::*;

verus! {

/// Why a request produced no response body. Cache misses and cache write
/// failures never appear here: they only send a request on to upstream or
/// go unrecorded.
#[derive(Debug, Clone, Copy, PartialEq, Eq, Structural)]
pub enum Error {
    /// A blob digest without the expected algorithm prefix.
    InvalidDigest,
    /// Upstream refused to authenticate for the scope.
    UpstreamAuth,
    /// Fetching from upstream failed.
    UpstreamFetch,
}

/// The HTTP status an error is answered with.
pub open spec fn status_of(e: Error) -> u16 {
    match e {
        Error::InvalidDigest => 400,
        Error::UpstreamAuth => 401,
        Error::UpstreamFetch => 502,
    }
}

impl Error {
    /// The HTTP status this error is answered with: a client error for a
    /// malformed digest, otherwise a failure on the upstream side.
    pub fn status_code(&self) -> (r: u16)
        ensures
            r == status_of(*self),
    {
        match self {
            Error::InvalidDigest => 400,
            Error::UpstreamAuth => 401,
            Error::UpstreamFetch => 502,
        }
    }
}

} // verus!
