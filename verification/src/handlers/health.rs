//! The health endpoint.

use vstd::prelude::*;
use vstd::string::*;
use crate::models::HealthResponse;

verus! {

/// The status that answers a failed connectivity probe.
pub const SERVICE_UNAVAILABLE: u16 = 503;

/// Answers the health check from the outcome of the backend probe.
pub fn health_check(backend_reachable: bool, now_secs: u64, version: &str) -> (r: Result<
    HealthResponse,
    u16,
>)
    ensures
        r is Ok <==> backend_reachable,
        r is Ok ==> r->Ok_0.status@ == "healthy"@ && r->Ok_0.timestamp == now_secs
            && r->Ok_0.version@ == version@,
        r is Err ==> r->Err_0 == SERVICE_UNAVAILABLE,
{
    if backend_reachable {
        Ok(
            HealthResponse {
                status: String::from_str("healthy"),
                timestamp: now_secs,
                version: String::from_str(version),
            },
        )
    } else {
        Err(SERVICE_UNAVAILABLE)
    }
}

} // verus!
