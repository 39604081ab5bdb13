use vstd::prelude::*;
use crate::domain::health::{HealthStatus, ServiceHealth};

verus! {

/// The id of the strategy service.
pub fn strategy_service_id() -> (r: &'static str)
    ensures
        r@ == "strategy_service"@,
{
    "strategy_service"
}

/// The display name of the strategy service.
pub fn strategy_service_name() -> (r: &'static str)
    ensures
        r@ == "Strategy Service"@,
{
    "Strategy Service"
}

/// The request that asks a service over the bus whether it is alive.
pub fn health_probe_payload() -> (r: &'static str)
    ensures
        r@ == "health"@,
{
    "health"
}

/// The strategy service's health after a probe at `now`: healthy, heard
/// from at `now`, when it answered; unhealthy when it did not.
pub fn strategy_health(answered: bool, now: u64) -> (h: ServiceHealth)
    ensures
        h.service_id@ == "strategy_service"@,
        h.uptime_secs is None,
        h.details is None,
        answered ==> h.status == HealthStatus::Healthy && h.last_heartbeat_ns == Some(now),
        !answered ==> h.status == HealthStatus::Unhealthy && h.last_heartbeat_ns is None,
{
    ServiceHealth {
        service_id: strategy_service_id().to_string(),
        status: if answered {
            HealthStatus::Healthy
        } else {
            HealthStatus::Unhealthy
        },
        last_heartbeat_ns: if answered {
            Some(now)
        } else {
            None
        },
        uptime_secs: None,
        details: None,
    }
}

} // verus!
