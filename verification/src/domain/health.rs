use vstd::prelude::*;

verus! {

/// The answer of the liveness and readiness probes.
#[derive(Debug, Clone)]
pub struct HealthResponse {
    pub status: &'static str,
}

impl HealthResponse {
    /// The answer of a healthy service.
    pub fn ok() -> (r: HealthResponse)
        ensures
            r.status@ == "ok"@,
    {
        HealthResponse { status: "ok" }
    }
}

} // verus!
