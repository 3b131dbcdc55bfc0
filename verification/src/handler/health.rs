//! The health check.

use vstd::prelude::*;

use crate::utils::api_response::{ApiResponse, STATUS_OK, STATUS_SERVICE_UNAVAILABLE};

verus! {

/// The body of a health answer.
#[derive(Debug)]
pub struct HealthResponse {
    pub status: &'static str,
}

/// The health answer: healthy (200, "OK") when the database answers,
/// unavailable (503, "ERROR") otherwise.
pub fn health_response(is_db_healthy: bool) -> (r: ApiResponse<HealthResponse>)
    ensures
        is_db_healthy ==> r.status == STATUS_OK && r.data.status@ == "OK"@ && r.message@
            == "server is healthy"@,
        !is_db_healthy ==> r.status == STATUS_SERVICE_UNAVAILABLE && r.data.status@ == "ERROR"@
            && r.message@ == "server is not healthy"@,
        r.success,
{
    if is_db_healthy {
        ApiResponse::ok(HealthResponse { status: "OK" }, "server is healthy")
    } else {
        ApiResponse::with_status(
            STATUS_SERVICE_UNAVAILABLE,
            HealthResponse { status: "ERROR" },
            "server is not healthy",
        )
    }
}

} // verus!
