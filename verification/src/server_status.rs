//! Both services seen together: the combined server status and the
//! startup decision of which services to start, with its bounded
//! status-check retry.

use vstd::prelude::*;

use crate::supervisor::ServiceStatus;

verus! {

/// The status of both managed services, and whether the set of
/// services the application needs is ready.
#[derive(Clone, Debug)]
pub struct ServerStatus {
    pub api: ServiceStatus,
    pub bui: ServiceStatus,
    pub all_services_ready: bool,
}

/// Combine the two per-service statuses: readiness goes by the API
/// service, which the application cannot run without.
pub fn check_server_status(api: ServiceStatus, bui: ServiceStatus) -> (r: ServerStatus)
    ensures
        r.all_services_ready == api.service_responds,
        r.api == api,
        r.bui == bui,
{
    let ready = api.service_responds;
    ServerStatus { api, bui, all_services_ready: ready }
}

/// The order reconciliation walks the services in: the API first, the
/// BUI second.
pub fn reconcile_order() -> (r: Vec<&'static str>)
    ensures
        r@.len() == 2,
        r@[0]@ == "api"@,
        r@[1]@ == "bui"@,
{
    let mut v: Vec<&'static str> = Vec::new();
    v.push("api");
    v.push("bui");
    v
}

/// How many times the startup status check is retried before the
/// application starts both services blindly.
pub const STATUS_CHECK_ATTEMPTS: usize = 3;

/// Milliseconds between two startup status checks.
pub const STATUS_CHECK_INTERVAL_MS: u64 = 500;

/// Which services startup must start: each one that does not respond;
/// both when no status could be obtained at all.
pub fn plan_service_starts(status: Option<&ServerStatus>) -> (r: (bool, bool))
    ensures
        status matches Some(s) ==> r == (!s.api.service_responds, !s.bui.service_responds),
        status is None ==> r == (true, true),
{
    match status {
        Some(s) => (!s.api.service_responds, !s.bui.service_responds),
        None => (true, true),
    }
}

} // verus!
