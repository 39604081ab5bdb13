use vstd::prelude::*;
use crate::domain::policy::PolicyDecision;

verus! {

/// Breaks the circuit of a service once its consecutive failures reach a
/// threshold.
pub struct CircuitBreakerPolicy {
    failure_threshold: u32,
    cooldown_secs: u64,
    half_open_probe_interval_secs: u64,
}

impl CircuitBreakerPolicy {
    /// The settings: threshold, cooldown and half-open probe interval.
    pub closed spec fn settings(&self) -> (u32, u64, u64) {
        (self.failure_threshold, self.cooldown_secs, self.half_open_probe_interval_secs)
    }

    /// A policy with the given settings.
    pub fn new(failure_threshold: u32, cooldown_secs: u64, half_open_probe_interval_secs: u64) -> (r:
        Self)
        ensures
            r.settings() == (failure_threshold, cooldown_secs, half_open_probe_interval_secs),
    {
        CircuitBreakerPolicy { failure_threshold, cooldown_secs, half_open_probe_interval_secs }
    }

    /// Decides on the `consecutive_failures` metric (already read as a whole
    /// number; `None` when it is absent): at or above the threshold the
    /// circuit breaks for the cooldown, otherwise the call is allowed.
    pub fn evaluate(&self, consecutive_failures: Option<u32>) -> (d: PolicyDecision)
        ensures
            (consecutive_failures matches Some(n) && n >= self.settings().0) ==> d
                == (PolicyDecision::CircuitBreak { cooldown_secs: self.settings().1 }),
            !(consecutive_failures matches Some(n) && n >= self.settings().0) ==> d
                == PolicyDecision::Allow,
    {
        match consecutive_failures {
            Some(n) => {
                if n >= self.failure_threshold {
                    return PolicyDecision::CircuitBreak { cooldown_secs: self.cooldown_secs };
                }
            },
            None => {},
        }
        PolicyDecision::Allow
    }

    /// The settings: threshold, cooldown and half-open probe interval.
    pub fn config(&self) -> (r: (u32, u64, u64))
        ensures
            r == self.settings(),
    {
        (self.failure_threshold, self.cooldown_secs, self.half_open_probe_interval_secs)
    }
}

impl Default for CircuitBreakerPolicy {
    /// Five failures, thirty seconds of cooldown, a probe every ten seconds.
    fn default() -> (r: Self)
        ensures
            r.settings() == (5u32, 30u64, 10u64),
    {
        CircuitBreakerPolicy::new(5, 30, 10)
    }
}

} // verus!
