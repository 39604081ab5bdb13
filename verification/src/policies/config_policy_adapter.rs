use vstd::prelude::*;
use vstd::string::*;
use crate::domain::errors::OrchestratorError;
use crate::domain::policy::{ParamValue, PolicyDecision, PolicyParameters, param_u32};
use crate::keyed::{KeyedVec, has_key, lookup, seq_keys, str_equal};

verus! {

/// The parameters stored under `k`, by their named values.
pub open spec fn param_lookup(
    s: Seq<(Seq<char>, PolicyParameters)>,
    k: Seq<char>,
) -> Option<Seq<(Seq<char>, ParamValue)>> {
    match lookup(s, k) {
        Some(p) => Some(p@),
        None => None,
    }
}

/// The policies that are evaluated from their configured parameters.
#[derive(Debug, Clone, Copy, PartialEq, Eq, Structural)]
pub enum PolicyKind {
    Drawdown,
    RateLimit,
    Volatility,
    /// Any other id: such a policy allows.
    Other,
}

/// The policy that the id `id` names.
pub open spec fn kind_of_policy(id: Seq<char>) -> PolicyKind {
    if id == "drawdown"@ {
        PolicyKind::Drawdown
    } else if id == "rate_limit"@ {
        PolicyKind::RateLimit
    } else if id == "volatility"@ {
        PolicyKind::Volatility
    } else {
        PolicyKind::Other
    }
}

/// Which policy `policy_id` names: `drawdown`, `rate_limit` and
/// `volatility` are known; any other id is evaluated as allowing.
pub fn policy_kind(policy_id: &str) -> (k: PolicyKind)
    ensures
        k == kind_of_policy(policy_id@),
{
    if str_equal(policy_id, "drawdown") {
        PolicyKind::Drawdown
    } else if str_equal(policy_id, "rate_limit") {
        PolicyKind::RateLimit
    } else if str_equal(policy_id, "volatility") {
        PolicyKind::Volatility
    } else {
        PolicyKind::Other
    }
}

/// Evaluates the configured policies from their parameters, keyed by policy
/// id (`drawdown`, `rate_limit`, `volatility`).
pub struct ConfigPolicyAdapter {
    parameters: KeyedVec<PolicyParameters>,
}

impl ConfigPolicyAdapter {
    /// The parameters of each policy, keyed by id.
    pub closed spec fn params(&self) -> Seq<(Seq<char>, PolicyParameters)> {
        self.parameters@
    }

    /// An adapter with no parameters.
    pub fn new() -> (r: Self)
        ensures
            r.params().len() == 0,
    {
        ConfigPolicyAdapter { parameters: KeyedVec::new() }
    }

    /// The parameters of policy `policy_id`.
    pub fn policy_parameters(&self, policy_id: &str) -> (r: Option<&PolicyParameters>)
        ensures
            r is Some <==> lookup(self.params(), policy_id@) is Some,
            r matches Some(p) ==> lookup(self.params(), policy_id@) == Some(*p),
    {
        self.parameters.get(policy_id)
    }

    /// The rate-limit policy: when its `global_max_orders_per_min` is set and
    /// the `current_orders_per_min` metric (read as a whole number) is above
    /// it, orders are throttled to it; otherwise allowed.
    pub fn evaluate_rate_limit(&self, current_orders_per_min: Option<u32>) -> (d: PolicyDecision)
        ensures
            ({
                let max = match lookup(self.params(), "rate_limit"@) {
                    Some(p) => param_u32(p@, "global_max_orders_per_min"@),
                    None => None,
                };
                if max is Some && current_orders_per_min is Some && current_orders_per_min->0
                    > max->0 {
                    d == (PolicyDecision::Throttle { max_rate: max->0 })
                } else {
                    d == PolicyDecision::Allow
                }
            }),
    {
        match self.parameters.get("rate_limit") {
            Some(params) => match params.get_u32("global_max_orders_per_min") {
                Some(max_rate) => match current_orders_per_min {
                    Some(rate) => {
                        if rate > max_rate {
                            return PolicyDecision::Throttle { max_rate };
                        }
                    },
                    None => {},
                },
                None => {},
            },
            None => {},
        }
        PolicyDecision::Allow
    }

    /// Stores the parameters of every policy in `params`; the policies that
    /// `params` does not name keep theirs.
    pub fn reload_policies(&mut self, params: &KeyedVec<PolicyParameters>) -> (r: Result<
        (),
        OrchestratorError,
    >)
        ensures
            r is Ok,
            forall|k: Seq<char>|
                has_key(final(self).params(), k) == (has_key(old(self).params(), k) || has_key(
                    params@,
                    k,
                )),
            forall|k: Seq<char>|
                #[trigger] param_lookup(final(self).params(), k) == (if has_key(params@, k) {
                    param_lookup(params@, k)
                } else {
                    param_lookup(old(self).params(), k)
                }),
    {
        proof {
            use_type_invariant(params);
        }
        let n = params.len();
        let mut i: usize = 0;
        proof {
            assert(params@.take(0) =~= Seq::<(Seq<char>, PolicyParameters)>::empty());
        }
        while i < n
            invariant
                n == params@.len(),
                i <= n,
                crate::keyed::keys_unique(params@),
                forall|k: Seq<char>|
                    #[trigger] has_key(self.params(), k) == (has_key(old(self).params(), k)
                        || has_key(params@.take(i as int), k)),
                forall|k: Seq<char>|
                    #[trigger] param_lookup(self.params(), k) == (if has_key(
                        params@.take(i as int),
                        k,
                    ) {
                        param_lookup(params@.take(i as int), k)
                    } else {
                        param_lookup(old(self).params(), k)
                    }),
            decreases n - i,
        {
            proof {
                use_type_invariant(&self.parameters);
            }
            let id = params.key_at(i).clone();
            let p = params.value_at(i).clone();
            let ghost s0 = self.params();
            self.parameters.insert(id, p);
            proof {
                assert forall|k: Seq<char>|
                    #[trigger] has_key(self.params(), k) == (has_key(old(self).params(), k)
                        || has_key(params@.take(i + 1), k)) && param_lookup(self.params(), k) == (if has_key(
                        params@.take(i + 1),
                        k,
                    ) {
                        param_lookup(params@.take(i + 1), k)
                    } else {
                        param_lookup(old(self).params(), k)
                    }) by {
                    crate::keyed::lemma_lookup_insert(s0, id@, p, k);
                    crate::keyed::lemma_take_succ(params@, i as int, k);
                    assert(has_key(s0, k) == (has_key(old(self).params(), k) || has_key(
                        params@.take(i as int),
                        k,
                    )));
                    assert(param_lookup(s0, k) == (if has_key(params@.take(i as int), k) {
                        param_lookup(params@.take(i as int), k)
                    } else {
                        param_lookup(old(self).params(), k)
                    }));
                    if has_key(self.params(), k) {
                        assert(lookup(self.params(), k) is Some);
                    }
                    if has_key(s0, k) {
                        assert(lookup(s0, k) is Some);
                    }
                }
            }
            i = i + 1;
        }
        proof {
            assert(params@.take(n as int) =~= params@);
        }
        Ok(())
    }

    /// Every policy with parameters, each reported as enabled.
    pub fn get_all_policies(&self) -> (r: Vec<(String, bool)>)
        ensures
            r@.len() == self.params().len(),
            forall|i: int|
                0 <= i < r@.len() ==> (#[trigger] r@[i]).0@ == seq_keys(self.params())[i] && r@[i].1,
    {
        let keys = self.parameters.keys();
        let n = keys.len();
        let mut r: Vec<(String, bool)> = Vec::new();
        let mut i: usize = 0;
        while i < n
            invariant
                n == keys@.len(),
                keys@.map_values(|k: String| k@) == seq_keys(self.params()),
                i <= n,
                r@.len() == i,
                forall|j: int|
                    0 <= j < i ==> (#[trigger] r@[j]).0@ == seq_keys(self.params())[j] && r@[j].1,
            decreases n - i,
        {
            proof {
                assert(keys@.map_values(|k: String| k@)[i as int] == keys@[i as int]@);
            }
            r.push((keys[i].clone(), true));
            i = i + 1;
        }
        r
    }
}

} // verus!
