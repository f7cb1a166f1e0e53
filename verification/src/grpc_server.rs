//! The gRPC surface of the service: a readiness probe.

use vstd::prelude::*;

verus! {

/// Answer to a readiness probe.
#[derive(Clone, Copy, Debug, PartialEq, Eq, Structural)]
pub struct ReadyResponse {
    pub ready: bool,
}

///Implementation of gRPC endpoints
#[derive(Debug, Default, Copy, Clone)]
pub struct SvcTelemetryImpl {}

impl SvcTelemetryImpl {
    /// Returns ready:true when service is available
    pub fn is_ready(&self) -> (r: ReadyResponse)
        ensures
            r.ready,
    {
        ReadyResponse { ready: true }
    }
}

} // verus!
