use vstd::prelude::*;
use crate::domain::errors::{OrchestratorError, concat_str};
use crate::domain::health::{HealthStatus, ServiceHealth};
use crate::keyed::{KeyedVec, lookup};

verus! {

/// How a health request ended: no answer, or an answer whose HTTP status
/// was a success (2xx) or not.
#[derive(Debug, Clone, Copy, PartialEq, Eq)]
pub enum ProbeOutcome {
    NoAnswer,
    Answered { success: bool },
}

/// The health endpoint of each service, keyed by service id.
#[derive(Debug)]
pub struct HttpHealthTargets {
    endpoints: KeyedVec<String>,
}

impl HttpHealthTargets {
    /// The endpoints, keyed by service id.
    pub closed spec fn endpoints(&self) -> Seq<(Seq<char>, String)> {
        self.endpoints@
    }

    /// Targets with the given endpoints.
    pub fn new(endpoints: KeyedVec<String>) -> (r: Self)
        ensures
            r.endpoints() == endpoints@,
    {
        HttpHealthTargets { endpoints }
    }

    /// The ids of the services with an endpoint, in order.
    pub fn service_ids(&self) -> (r: Vec<String>)
        ensures
            r@.map_values(|k: String| k@) == crate::keyed::seq_keys(self.endpoints()),
    {
        self.endpoints.keys()
    }

    /// The endpoint to probe for `service_id`; a service without one is
    /// an error "No health endpoint for service: <id>".
    pub fn endpoint_for(&self, service_id: &str) -> (r: Result<&String, OrchestratorError>)
        ensures
            match lookup(self.endpoints(), service_id@) {
                Some(e) => r == Ok::<&String, OrchestratorError>(&e),
                None => r matches Err(OrchestratorError::HealthCheckFailed(m)) && m@
                    == "No health endpoint for service: "@ + service_id@,
            },
    {
        match self.endpoints.get(service_id) {
            Some(e) => Ok(e),
            None => Err(
                OrchestratorError::HealthCheckFailed(
                    concat_str("No health endpoint for service: ", service_id),
                ),
            ),
        }
    }
}

/// The health that a probe of `service_id` at time `now` shows: healthy on
/// a successful answer, degraded on another answer, unhealthy with no
/// heartbeat when nothing answered.
pub fn health_from_probe(service_id: &str, outcome: ProbeOutcome, now: u64) -> (h: ServiceHealth)
    ensures
        h.service_id@ == service_id@,
        h.uptime_secs is None,
        h.details is None,
        match outcome {
            ProbeOutcome::Answered { success } => h.last_heartbeat_ns == Some(now) && h.status == (
            if success {
                HealthStatus::Healthy
            } else {
                HealthStatus::Degraded
            }),
            ProbeOutcome::NoAnswer => h.last_heartbeat_ns is None && h.status
                == HealthStatus::Unhealthy,
        },
{
    match outcome {
        ProbeOutcome::Answered { success } => ServiceHealth {
            service_id: service_id.to_string(),
            status: if success {
                HealthStatus::Healthy
            } else {
                HealthStatus::Degraded
            },
            last_heartbeat_ns: Some(now),
            uptime_secs: None,
            details: None,
        },
        ProbeOutcome::NoAnswer => ServiceHealth {
            service_id: service_id.to_string(),
            status: HealthStatus::Unhealthy,
            last_heartbeat_ns: None,
            uptime_secs: None,
            details: None,
        },
    }
}

} // verus!
