//! Check the health of the service's subsystems.

use vstd::prelude::*;

use crate::client::{api_url, Client};

verus! {

/// The response shape of the health endpoint.
#[derive(Debug, Clone)]
pub struct HealthResponse {
    pub result: ServerHealth,
}

/// The independently reported statuses of the service's three subsystems.
#[derive(Debug, Clone)]
pub struct ServerHealth {
    pub worker: ServerHealthStatus,
    pub database: ServerHealthStatus,
    pub kv: ServerHealthStatus,
}

/// One subsystem's status (`connected` or `disconnected` on the wire).
#[derive(Debug, Clone, Copy, PartialEq, Eq, Structural, PartialOrd, Ord)]
pub enum ServerHealthStatus {
    Connected,
    Disconnected,
}

impl Client {
    /// The URL of the health endpoint.
    pub fn server_health_url(&self) -> (u: String)
        ensures
            u@ == api_url() + "/health"@,
    {
        let mut u = String::new();
        u.append("https://api.barid.site");
        u.append("/health");
        proof {
            assert(u@ =~= api_url() + "/health"@);
        }
        u
    }
}

} // verus!
