use vstd::prelude::*;
use crate::domain::health::{HealthStatus, ServiceHealth};
use crate::keyed::{KeyedVec, lookup, seq_insert};
use crate::time_source::now_nanos;

verus! {

/// The status of a service last heard from `age` nanoseconds ago: healthy
/// within one time-to-live, degraded within two, unhealthy after.
pub open spec fn heartbeat_status(age: int, ttl_ns: int) -> HealthStatus {
    if age < ttl_ns {
        HealthStatus::Healthy
    } else if age < 2 * ttl_ns {
        HealthStatus::Degraded
    } else {
        HealthStatus::Unhealthy
    }
}

/// The health reported for a service whose last heartbeat (if any) is
/// `last`, seen at time `now`.
pub open spec fn heartbeat_health(id: Seq<char>, last: Option<u64>, now: u64, ttl_ns: u64) -> (
    HealthStatus,
    Option<u64>,
) {
    match last {
        Some(t) => (
            heartbeat_status(if now >= t {
                now - t
            } else {
                0
            }, ttl_ns as int),
            Some(t),
        ),
        None => (HealthStatus::Unknown, None),
    }
}

/// Whether `h` is the health reported for `id` from `last` at `now`.
pub open spec fn reports(h: ServiceHealth, id: Seq<char>, last: Option<u64>, now: u64, ttl_ns: u64) -> bool {
    &&& h.service_id@ == id
    &&& (h.status, h.last_heartbeat_ns) == heartbeat_health(id, last, now, ttl_ns)
    &&& h.uptime_secs is None
    &&& h.details is None
}

/// Judges services by the heartbeats they publish on the bus.
#[derive(Debug)]
pub struct BusHealthAdapter {
    heartbeats: KeyedVec<u64>,
    ttl_ns: u64,
}

impl BusHealthAdapter {
    /// The time of each service's last heartbeat, in nanoseconds.
    pub closed spec fn beats(&self) -> Seq<(Seq<char>, u64)> {
        self.heartbeats@
    }

    /// How long a heartbeat keeps a service healthy, in nanoseconds.
    pub closed spec fn ttl(&self) -> u64 {
        self.ttl_ns
    }

    /// An adapter that has heard nothing, with a time-to-live of `ttl_secs`
    /// seconds.
    pub fn new(ttl_secs: u64) -> (r: Self)
        requires
            ttl_secs * 1_000_000_000 <= u64::MAX,
        ensures
            r.beats().len() == 0,
            r.ttl() == ttl_secs * 1_000_000_000,
    {
        BusHealthAdapter { heartbeats: KeyedVec::new(), ttl_ns: ttl_secs * 1_000_000_000 }
    }

    /// Records a heartbeat of `service_id` at time `now`.
    pub fn record_heartbeat_at(&mut self, service_id: &str, now: u64)
        ensures
            final(self).beats() == seq_insert(old(self).beats(), service_id@, now),
            final(self).ttl() == old(self).ttl(),
    {
        self.heartbeats.insert(service_id.to_string(), now);
    }

    /// Records a heartbeat of `service_id` now.
    pub fn record_heartbeat(&mut self, service_id: &str)
        ensures
            exists|now: u64| final(self).beats() == seq_insert(old(self).beats(), service_id@, now),
            final(self).ttl() == old(self).ttl(),
    {
        let now = now_nanos();
        self.record_heartbeat_at(service_id, now);
    }

    /// The health of `service_id` at time `now`, judged by the age of its
    /// last heartbeat; unknown when none was heard.
    pub fn get_health_at(&self, service_id: &str, now: u64) -> (h: ServiceHealth)
        requires
            2 * self.ttl() <= u64::MAX,
        ensures
            reports(h, service_id@, lookup(self.beats(), service_id@), now, self.ttl()),
    {
        match self.heartbeats.get(service_id) {
            Some(last) => {
                let last = *last;
                let age = now.saturating_sub(last);
                let status = if age < self.ttl_ns {
                    HealthStatus::Healthy
                } else if age < self.ttl_ns * 2 {
                    HealthStatus::Degraded
                } else {
                    HealthStatus::Unhealthy
                };
                ServiceHealth {
                    service_id: service_id.to_string(),
                    status,
                    last_heartbeat_ns: Some(last),
                    uptime_secs: None,
                    details: None,
                }
            },
            None => ServiceHealth::unknown(service_id),
        }
    }

    /// The health of `service_id` now.
    pub fn get_health(&self, service_id: &str) -> (h: ServiceHealth)
        requires
            2 * self.ttl() <= u64::MAX,
        ensures
            exists|now: u64|
                reports(h, service_id@, lookup(self.beats(), service_id@), now, self.ttl()),
    {
        let now = now_nanos();
        self.get_health_at(service_id, now)
    }

    /// The health at time `now` of every service heard from, keyed by id.
    pub fn get_all_health_at(&self, now: u64) -> (r: KeyedVec<ServiceHealth>)
        requires
            2 * self.ttl() <= u64::MAX,
        ensures
            r@.len() == self.beats().len(),
            forall|i: int|
                0 <= i < r@.len() ==> #[trigger] r@[i].0 == self.beats()[i].0 && reports(
                    r@[i].1,
                    self.beats()[i].0,
                    Some(self.beats()[i].1),
                    now,
                    self.ttl(),
                ),
    {
        proof {
            use_type_invariant(&self.heartbeats);
        }
        let n = self.heartbeats.len();
        let mut r: KeyedVec<ServiceHealth> = KeyedVec::new();
        let mut i: usize = 0;
        while i < n
            invariant
                n == self.beats().len(),
                2 * self.ttl() <= u64::MAX,
                crate::keyed::keys_unique(self.beats()),
                i <= n,
                r@.len() == i,
                forall|j: int|
                    0 <= j < i ==> #[trigger] r@[j].0 == self.beats()[j].0 && reports(
                        r@[j].1,
                        self.beats()[j].0,
                        Some(self.beats()[j].1),
                        now,
                        self.ttl(),
                    ),
            decreases n - i,
        {
            let id = self.heartbeats.key_at(i);
            let h = self.get_health_at(id.as_str(), now);
            proof {
                crate::keyed::lemma_key_pos_unique(self.beats(), i as int);
                let s = r@;
                if crate::keyed::has_key(s, id@) {
                    let q = crate::keyed::key_pos(s, id@);
                    assert(s[q].0 == self.beats()[q].0);
                    assert(self.beats()[q].0 != self.beats()[i as int].0);
                }
            }
            r.insert(id.clone(), h);
            i = i + 1;
        }
        r
    }
}

/// A service just heard from is healthy (for any positive time-to-live),
/// and one never heard from is unknown.
pub proof fn law_fresh_heartbeat_is_healthy(id: Seq<char>, now: u64, ttl_ns: u64)
    requires
        ttl_ns > 0,
    ensures
        heartbeat_health(id, Some(now), now, ttl_ns) == (HealthStatus::Healthy, Some(now)),
        heartbeat_health(id, None, now, ttl_ns).0 == HealthStatus::Unknown,
{
}

/// The status worsens with age: healthy, then degraded, then unhealthy.
pub proof fn law_status_worsens_with_age(a: int, b: int, ttl_ns: int)
    requires
        0 <= a <= b,
    ensures
        heartbeat_status(a, ttl_ns) == HealthStatus::Unhealthy ==> heartbeat_status(b, ttl_ns)
            == HealthStatus::Unhealthy,
        heartbeat_status(b, ttl_ns) == HealthStatus::Healthy ==> heartbeat_status(a, ttl_ns)
            == HealthStatus::Healthy,
{
}

} // verus!
