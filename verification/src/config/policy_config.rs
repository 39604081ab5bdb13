use vstd::prelude::*;
use vstd::string::*;
use crate::keyed::KeyedVec;

verus! {

/// The limit on orders per minute, overall and per service.
#[derive(Debug)]
pub struct RateLimitPolicyConfig {
    pub global_max_orders_per_min: u32,
    pub per_service: KeyedVec<u32>,
}

impl Default for RateLimitPolicyConfig {
    /// 500 orders a minute overall, no limit per service.
    fn default() -> (r: Self)
        ensures
            r.global_max_orders_per_min == 500,
            r.per_service@.len() == 0,
    {
        RateLimitPolicyConfig { global_max_orders_per_min: 500, per_service: KeyedVec::new() }
    }
}

/// The configured mode transitions, written `from->to`.
pub open spec fn default_transition_names() -> Seq<Seq<char>> {
    seq![
        "offline->paper"@,
        "paper->live"@,
        "paper->readonly"@,
        "live->paper"@,
        "live->readonly"@,
        "readonly->paper"@,
    ]
}

/// The mode transitions the configuration allows, written `from->to`.
#[derive(Debug)]
pub struct ModeTransitionPolicyConfig {
    pub allowed_transitions: Vec<String>,
}

impl Default for ModeTransitionPolicyConfig {
    /// The six transitions of `default_transition_names`, in that order.
    fn default() -> (r: Self)
        ensures
            r.allowed_transitions@.map_values(|s: String| s@) == default_transition_names(),
    {
        let mut v: Vec<String> = Vec::new();
        v.push(String::from_str("offline->paper"));
        v.push(String::from_str("paper->live"));
        v.push(String::from_str("paper->readonly"));
        v.push(String::from_str("live->paper"));
        v.push(String::from_str("live->readonly"));
        v.push(String::from_str("readonly->paper"));
        assert(v@.map_values(|s: String| s@) =~= default_transition_names());
        ModeTransitionPolicyConfig { allowed_transitions: v }
    }
}

/// When a circuit breaker opens and how long it stays open.
#[derive(Debug, Clone, Copy, PartialEq, Eq)]
pub struct CircuitBreakerPolicyConfig {
    pub failure_threshold: u32,
    pub cooldown_secs: u64,
    pub half_open_probe_interval_secs: u64,
}

impl Default for CircuitBreakerPolicyConfig {
    /// Five failures open it for 30 seconds, probing every 10.
    fn default() -> (r: Self)
        ensures
            r == (CircuitBreakerPolicyConfig {
                failure_threshold: 5,
                cooldown_secs: 30,
                half_open_probe_interval_secs: 10,
            }),
    {
        CircuitBreakerPolicyConfig {
            failure_threshold: 5,
            cooldown_secs: 30,
            half_open_probe_interval_secs: 10,
        }
    }
}

} // verus!
