use vstd::prelude::*;
use crate::domain::health::{HealthSnapshot, HealthStatus, ServiceHealth};
use crate::keyed::lookup;

verus! {

/// The name under which a status is reported.
pub open spec fn status_name(s: HealthStatus) -> Seq<char> {
    match s {
        HealthStatus::Healthy => "Healthy"@,
        HealthStatus::Degraded => "Degraded"@,
        HealthStatus::Unhealthy => "Unhealthy"@,
        HealthStatus::Unknown => "Unknown"@,
    }
}

/// The name under which `s` is reported.
pub fn status_label(s: HealthStatus) -> (r: &'static str)
    ensures
        r@ == status_name(s),
{
    match s {
        HealthStatus::Healthy => "Healthy",
        HealthStatus::Degraded => "Degraded",
        HealthStatus::Unhealthy => "Unhealthy",
        HealthStatus::Unknown => "Unknown",
    }
}

/// What is reported of the system's health as a whole.
#[derive(Debug, Clone, Copy, PartialEq, Eq)]
pub struct SystemHealthSummary {
    pub overall_status: HealthStatus,
    pub services: usize,
    pub timestamp_ns: u64,
}

/// The overall status, the number of services and the time of `snapshot`.
pub fn system_health(snapshot: &HealthSnapshot) -> (r: SystemHealthSummary)
    ensures
        r == (SystemHealthSummary {
            overall_status: snapshot.overall_status,
            services: snapshot.services@.len() as usize,
            timestamp_ns: snapshot.timestamp_ns,
        }),
{
    SystemHealthSummary {
        overall_status: snapshot.overall_status,
        services: snapshot.services.len(),
        timestamp_ns: snapshot.timestamp_ns,
    }
}

/// What `snapshot` knows of `service_id`.
pub fn service_health(snapshot: &HealthSnapshot, service_id: &str) -> (r: Option<ServiceHealth>)
    ensures
        r == lookup(snapshot.services@, service_id@),
{
    match snapshot.services.get(service_id) {
        Some(h) => Some(h.clone()),
        None => None,
    }
}

/// The message given for a service nothing is known of.
pub fn no_health_message() -> (r: &'static str)
    ensures
        r@ == "No health data available"@,
{
    "No health data available"
}

/// The state reported for the kill switch.
pub fn kill_switch_label(active: bool) -> (r: &'static str)
    ensures
        r@ == (if active {
            "active"@
        } else {
            "inactive"@
        }),
{
    if active {
        "active"
    } else {
        "inactive"
    }
}

} // verus!
