use vstd::prelude::*;
use crate::domain::policy::PolicyDecision;

verus! {

/// Throttles order flow above a number of orders per minute.
pub struct RateLimitPolicy {
    max_per_min: u32,
}

impl RateLimitPolicy {
    /// The limit, in orders per minute.
    pub closed spec fn limit(&self) -> u32 {
        self.max_per_min
    }

    /// A policy with limit `max_per_min`.
    pub fn new(max_per_min: u32) -> (r: Self)
        ensures
            r.limit() == max_per_min,
    {
        RateLimitPolicy { max_per_min }
    }

    /// Decides on the `current_orders_per_min` metric (already read as a
    /// whole number; `None` when it is absent): above the limit, orders are
    /// throttled to the limit; otherwise allowed.
    pub fn evaluate(&self, current_orders_per_min: Option<u32>) -> (d: PolicyDecision)
        ensures
            (current_orders_per_min matches Some(n) && n > self.limit()) ==> d
                == (PolicyDecision::Throttle { max_rate: self.limit() }),
            !(current_orders_per_min matches Some(n) && n > self.limit()) ==> d
                == PolicyDecision::Allow,
    {
        match current_orders_per_min {
            Some(n) => {
                if n > self.max_per_min {
                    return PolicyDecision::Throttle { max_rate: self.max_per_min };
                }
            },
            None => {},
        }
        PolicyDecision::Allow
    }
}

impl Default for RateLimitPolicy {
    /// Five hundred orders per minute.
    fn default() -> (r: Self)
        ensures
            r.limit() == 500,
    {
        RateLimitPolicy::new(500)
    }
}

} // verus!
