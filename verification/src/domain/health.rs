use vstd::prelude::*;
use crate::keyed::{KeyedVec, seq_insert};
use crate::time_source::now_nanos;

verus! {

/// The health of one service, or of the system as a whole.
#[derive(Debug, Clone, Copy, PartialEq, Eq, Hash, Structural)]
pub enum HealthStatus {
    Healthy,
    Degraded,
    Unhealthy,
    Unknown,
}

impl HealthStatus {
    /// A service can take work while it is healthy or degraded.
    pub fn is_operational(&self) -> (b: bool)
        ensures
            b == (*self == HealthStatus::Healthy || *self == HealthStatus::Degraded),
    {
        match self {
            HealthStatus::Healthy | HealthStatus::Degraded => true,
            _ => false,
        }
    }
}

/// What is known of one service's health. `details` holds a JSON document
/// as text.
#[derive(Debug)]
pub struct ServiceHealth {
    pub service_id: String,
    pub status: HealthStatus,
    pub last_heartbeat_ns: Option<u64>,
    pub uptime_secs: Option<u64>,
    pub details: Option<String>,
}

impl Clone for ServiceHealth {
    fn clone(&self) -> (r: Self)
        ensures
            r == *self,
    {
        ServiceHealth {
            service_id: self.service_id.clone(),
            status: self.status,
            last_heartbeat_ns: self.last_heartbeat_ns,
            uptime_secs: self.uptime_secs,
            details: self.details.clone(),
        }
    }
}

impl ServiceHealth {
    /// The health of a service that nothing has been heard from.
    pub fn unknown(service_id: &str) -> (r: Self)
        ensures
            r.service_id@ == service_id@,
            r.status == HealthStatus::Unknown,
            r.last_heartbeat_ns is None,
            r.uptime_secs is None,
            r.details is None,
    {
        ServiceHealth {
            service_id: String::from_str(service_id),
            status: HealthStatus::Unknown,
            last_heartbeat_ns: None,
            uptime_secs: None,
            details: None,
        }
    }
}

/// Whether some service in `s` has status `st`.
pub open spec fn some_status(s: Seq<(Seq<char>, ServiceHealth)>, st: HealthStatus) -> bool {
    exists|i: int| 0 <= i < s.len() && #[trigger] s[i].1.status == st
}

/// The overall status of a set of services: unknown when there are none,
/// unhealthy when any is, else degraded when any is, else healthy.
pub open spec fn overall_of(s: Seq<(Seq<char>, ServiceHealth)>) -> HealthStatus {
    if s.len() == 0 {
        HealthStatus::Unknown
    } else if some_status(s, HealthStatus::Unhealthy) {
        HealthStatus::Unhealthy
    } else if some_status(s, HealthStatus::Degraded) {
        HealthStatus::Degraded
    } else {
        HealthStatus::Healthy
    }
}

/// The health of every service, keyed by service id, with the overall
/// status derived from them.
pub struct HealthSnapshot {
    pub timestamp_ns: u64,
    pub services: KeyedVec<ServiceHealth>,
    pub overall_status: HealthStatus,
}

impl HealthSnapshot {
    /// A snapshot with no services, taken now; its overall status is unknown.
    pub fn new() -> (r: Self)
        ensures
            r.services@.len() == 0,
            r.overall_status == HealthStatus::Unknown,
    {
        HealthSnapshot {
            timestamp_ns: now_nanos(),
            services: KeyedVec::new(),
            overall_status: HealthStatus::Unknown,
        }
    }

    /// Records the health of `service_id` (replacing what was known of it)
    /// and derives the overall status again.
    pub fn update_service(&mut self, service_id: String, health: ServiceHealth)
        ensures
            final(self).services@ == seq_insert(old(self).services@, service_id@, health),
            final(self).overall_status == overall_of(final(self).services@),
    {
        self.services.insert(service_id, health);
        self.recalculate_overall();
    }

    /// Derives the overall status from the services; the timestamp is
    /// renewed whenever there is at least one service.
    fn recalculate_overall(&mut self)
        ensures
            final(self).services@ == old(self).services@,
            final(self).overall_status == overall_of(old(self).services@),
            old(self).services@.len() == 0 ==> final(self).timestamp_ns == old(self).timestamp_ns,
    {
        let n = self.services.len();
        if n == 0 {
            self.overall_status = HealthStatus::Unknown;
            return;
        }
        let mut unhealthy = false;
        let mut degraded = false;
        let mut i: usize = 0;
        while i < n
            invariant
                n == self.services@.len(),
                i <= n,
                unhealthy == (exists|j: int|
                    0 <= j < i && #[trigger] self.services@[j].1.status == HealthStatus::Unhealthy),
                degraded == (exists|j: int|
                    0 <= j < i && #[trigger] self.services@[j].1.status == HealthStatus::Degraded),
            decreases n - i,
        {
            let st = self.services.value_at(i).status;
            if st == HealthStatus::Unhealthy {
                unhealthy = true;
            }
            if st == HealthStatus::Degraded {
                degraded = true;
            }
            i = i + 1;
        }
        self.overall_status = if unhealthy {
            HealthStatus::Unhealthy
        } else if degraded {
            HealthStatus::Degraded
        } else {
            HealthStatus::Healthy
        };
        self.timestamp_ns = now_nanos();
    }
}

/// One unhealthy service makes the system unhealthy: after recording an
/// unhealthy service the overall status is unhealthy, whatever the others.
pub proof fn law_unhealthy_service_makes_system_unhealthy(
    s: Seq<(Seq<char>, ServiceHealth)>,
    id: Seq<char>,
    h: ServiceHealth,
)
    requires
        h.status == HealthStatus::Unhealthy,
    ensures
        overall_of(seq_insert(s, id, h)) == HealthStatus::Unhealthy,
{
    let t = seq_insert(s, id, h);
    if crate::keyed::has_key(s, id) {
        let p = crate::keyed::key_pos(s, id);
        assert(t[p].1.status == HealthStatus::Unhealthy);
    } else {
        assert(t[s.len() as int].1.status == HealthStatus::Unhealthy);
    }
}

/// With at least one service and every service healthy, the system is
/// healthy.
pub proof fn law_all_healthy_is_healthy(s: Seq<(Seq<char>, ServiceHealth)>)
    requires
        s.len() > 0,
        forall|i: int| 0 <= i < s.len() ==> (#[trigger] s[i]).1.status == HealthStatus::Healthy,
    ensures
        overall_of(s) == HealthStatus::Healthy,
{
}

} // verus!
