//! What the service answers when asked whether it is alive and ready.

use vstd::prelude::*;
use vstd::string::StringExecFns;

verus! {

/// The answer to a health check.
#[derive(Debug)]
pub struct HealthResponse {
    pub status: String,
    pub database: String,
    pub version: String,
    pub uptime_seconds: u64,
}

/// The answer to a readiness check.
#[derive(Debug)]
pub struct ReadyResponse {
    pub ready: bool,
}

/// How the state of the store's connection is reported.
pub open spec fn database_text(reachable: bool) -> Seq<char> {
    if reachable {
        "connected"@
    } else {
        "disconnected"@
    }
}

/// The status number of a readiness answer: 200 when ready, 503 when not.
pub open spec fn ready_status(ready: bool) -> u16 {
    if ready {
        200
    } else {
        503
    }
}

impl HealthResponse {
    /// The answer of a service that runs: it is healthy whether or not the
    /// store can be reached, and says which of the two holds.
    pub fn new(database_reachable: bool, version: String, uptime_seconds: u64) -> (response:
        HealthResponse)
        ensures
            response.status@ == "healthy"@,
            response.database@ == database_text(database_reachable),
            response.version == version,
            response.uptime_seconds == uptime_seconds,
    {
        let database = if database_reachable {
            String::from_str("connected")
        } else {
            String::from_str("disconnected")
        };
        HealthResponse { status: String::from_str("healthy"), database, version, uptime_seconds }
    }
}

impl ReadyResponse {
    /// The service is ready exactly when the store can be reached.
    pub fn new(database_reachable: bool) -> (response: ReadyResponse)
        ensures
            response.ready == database_reachable,
    {
        ReadyResponse { ready: database_reachable }
    }

    /// The status number to answer with.
    pub fn status_code(&self) -> (status: u16)
        ensures
            status == ready_status(self.ready),
    {
        if self.ready {
            200
        } else {
            503
        }
    }
}

} // verus!
