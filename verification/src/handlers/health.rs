//! The answer to a health probe.

use crate::handlers::ApiResponse;
use crate::version::current;
use vstd::prelude::*;

verus! {

/// What a health probe is answered with.
#[derive(Debug)]
pub struct HealthResponse {
    pub status: String,
    pub version: String,
}

/// The answer to a health probe: the service is healthy and names its
/// version.
pub fn handle_health() -> (r: ApiResponse<HealthResponse>)
    ensures
        r.success,
        r.data.status@ == "healthy"@,
        r.data.version@ == "0.1.0"@,
{
    ApiResponse::new(
        HealthResponse { status: String::from_str("healthy"), version: String::from_str(current()) },
    )
}

} // verus!
