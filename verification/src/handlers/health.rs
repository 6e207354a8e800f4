//! Probes.

use vstd::prelude::*;

verus! {

/// Health check endpoint
///
/// Returns 200 OK with body "ok" to indicate the server is running.
/// This endpoint is outside the protocol namespace (/v1/stream) as it's
/// an infrastructure concern, not part of the durable streams protocol.
pub fn health_check() -> (r: (u16, &'static str))
    ensures
        r.0 == 200,
        r.1@ == "ok"@,
{
    (200, "ok")
}

/// Readiness check endpoint
///
/// Returns 200 OK when the server is ready to accept traffic (storage
/// initialization is complete). Returns 503 Service Unavailable otherwise.
/// Useful for Kubernetes readiness probes and load balancer health checks.
pub fn readiness_check(ready: bool) -> (r: (u16, &'static str))
    ensures
        ready ==> r.0 == 200 && r.1@ == "ready"@,
        !ready ==> r.0 == 503 && r.1@ == "not ready"@,
{
    if ready {
        (200, "ready")
    } else {
        (503, "not ready")
    }
}

} // verus!
