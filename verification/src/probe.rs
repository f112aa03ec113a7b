//! Outcome of one probe, as the transport reports it.

use vstd::prelude::*;

verus! {

/// Whether a status code is in the success class (2xx).
pub open spec fn is_success(code: int) -> bool {
    200 <= code <= 299
}

/// What one probe found out about a target.
///
/// `status` is `None` when the transport failed before any response came
/// back. `duration_ms` is the wall time the probe took, up to the response or
/// to the failure.
#[derive(Debug, Clone, Copy, PartialEq, Eq, Structural)]
pub struct PingResponse {
    pub is_alive: bool,
    pub status: Option<u16>,
    pub duration_ms: u128,
}

impl PingResponse {
    /// A target counts as alive only with a response in the success class.
    pub open spec fn consistent(self) -> bool {
        self.is_alive <==> (self.status matches Some(code) && is_success(code as int))
    }

    /// Outcome of a probe that got a response with status `code` after
    /// `elapsed_ms` milliseconds.
    pub fn from_status(code: u16, elapsed_ms: u128) -> (response: PingResponse)
        ensures
            response.is_alive == is_success(code as int),
            response.status == Some(code),
            response.duration_ms == elapsed_ms,
            response.consistent(),
    {
        PingResponse { is_alive: 200 <= code && code <= 299, status: Some(code), duration_ms: elapsed_ms }
    }

    /// Outcome of a probe whose transport failed (name resolution, connect,
    /// timeout) after `elapsed_ms` milliseconds.
    pub fn unreachable(elapsed_ms: u128) -> (response: PingResponse)
        ensures
            !response.is_alive,
            response.status is None,
            response.duration_ms == elapsed_ms,
            response.consistent(),
    {
        PingResponse { is_alive: false, status: None, duration_ms: elapsed_ms }
    }
}

} // verus!
