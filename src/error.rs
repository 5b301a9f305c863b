//! The failures that the gateway reports to its callers.
use vstd::prelude::*;

verus! {

/// A request-level failure, each with its own HTTP status.
#[derive(Debug, Clone, Copy, PartialEq, Eq, Structural)]
pub enum ApiError {
    /// The credential is missing, invalid or revoked.
    Unauthorized,
    /// The caller is authenticated but lacks the required capability.
    Forbidden,
    /// The per-second request ceiling for the caller's key was reached.
    RateLimited,
    /// The request could not be accepted (an oversized proxy body).
    BadRequest,
    /// The signaling backend could not be reached or its answer read.
    BadGateway,
    /// A lookup the decision depends on failed.
    Internal,
}

impl ApiError {
    pub open spec fn spec_status(self) -> u16 {
        match self {
            ApiError::Unauthorized => 401,
            ApiError::Forbidden => 403,
            ApiError::RateLimited => 429,
            ApiError::BadRequest => 400,
            ApiError::BadGateway => 502,
            ApiError::Internal => 500,
        }
    }

    /// The HTTP status code that carries this failure.
    pub fn status(&self) -> (r: u16)
        ensures
            r == self.spec_status(),
    {
        match self {
            ApiError::Unauthorized => 401,
            ApiError::Forbidden => 403,
            ApiError::RateLimited => 429,
            ApiError::BadRequest => 400,
            ApiError::BadGateway => 502,
            ApiError::Internal => 500,
        }
    }
}

} // verus!
