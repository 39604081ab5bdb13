use vstd::prelude::*;
use vstd::string::*;
use crate::domain::events::SystemEvent;
use crate::domain::policy::{ParamValue, PolicyParameters, PolicySummary};
use crate::keyed::{
    KeyedVec, has_key, keys_unique, lemma_lookup_insert, lemma_take_succ, lemma_view_values,
    lemma_view_values_insert, lookup, seq_insert, view_values,
};
use crate::policies::config_policy_adapter::param_lookup;

verus! {

/// Whether a policy is enabled, and its parameters.
#[derive(Debug)]
pub struct PolicyState {
    pub enabled: bool,
    pub parameters: PolicyParameters,
}

impl View for PolicyState {
    type V = (bool, Seq<(Seq<char>, ParamValue)>);

    open spec fn view(&self) -> (bool, Seq<(Seq<char>, ParamValue)>) {
        (self.enabled, self.parameters.values@)
    }
}

/// The policies after `params` is set for `id`: a new policy is enabled, an
/// existing one keeps whether it was enabled.
pub open spec fn with_params(
    m: Seq<(Seq<char>, (bool, Seq<(Seq<char>, ParamValue)>))>,
    id: Seq<char>,
    params: Seq<(Seq<char>, ParamValue)>,
) -> Seq<(Seq<char>, (bool, Seq<(Seq<char>, ParamValue)>))> {
    let enabled = match lookup(m, id) {
        Some(st) => st.0,
        None => true,
    };
    seq_insert(m, id, (enabled, params))
}

/// The policies after every `(id, params)` of `all` is set, in order.
pub open spec fn with_all_params(
    m: Seq<(Seq<char>, (bool, Seq<(Seq<char>, ParamValue)>))>,
    all: Seq<(Seq<char>, PolicyParameters)>,
) -> Seq<(Seq<char>, (bool, Seq<(Seq<char>, ParamValue)>))>
    decreases all.len(),
{
    if all.len() == 0 {
        m
    } else {
        with_params(with_all_params(m, all.drop_last()), all.last().0, all.last().1.values@)
    }
}

/// Whether every policy is enabled.
pub open spec fn all_enabled(m: Seq<(Seq<char>, (bool, Seq<(Seq<char>, ParamValue)>))>) -> bool {
    forall|i: int| 0 <= i < m.len() ==> (#[trigger] m[i]).1.0
}

/// Reading a policy after setting its parameters gives those parameters,
/// with the policy enabled; every policy stays enabled.
pub proof fn law_update_then_get_policy(
    m: Seq<(Seq<char>, (bool, Seq<(Seq<char>, ParamValue)>))>,
    id: Seq<char>,
    params: Seq<(Seq<char>, ParamValue)>,
)
    requires
        keys_unique(m),
        all_enabled(m),
    ensures
        keys_unique(with_params(m, id, params)),
        all_enabled(with_params(m, id, params)),
        lookup(with_params(m, id, params), id) == Some((true, params)),
{
    let enabled = match lookup(m, id) {
        Some(st) => st.0,
        None => true,
    };
    lemma_lookup_insert(m, id, (enabled, params), id);
    if has_key(m, id) {
        let p = crate::keyed::key_pos(m, id);
        assert(m[p].1.0);
    }
    let t = with_params(m, id, params);
    assert forall|i: int| 0 <= i < t.len() implies (#[trigger] t[i]).1.0 by {
        if has_key(m, id) {
            let p = crate::keyed::key_pos(m, id);
            if i != p {
                assert(t[i] == m[i]);
            }
        } else if i < m.len() {
            assert(t[i] == m[i]);
        }
    }
}

/// Reading a policy after a reload gives the parameters the reload set for
/// it, with the policy enabled; a policy the reload does not name keeps what
/// it had. Every policy stays enabled.
pub proof fn law_reload_then_get_policy(
    m: Seq<(Seq<char>, (bool, Seq<(Seq<char>, ParamValue)>))>,
    all: Seq<(Seq<char>, PolicyParameters)>,
    k: Seq<char>,
)
    requires
        keys_unique(m),
        all_enabled(m),
        keys_unique(all),
    ensures
        keys_unique(with_all_params(m, all)),
        all_enabled(with_all_params(m, all)),
        lookup(with_all_params(m, all), k) == (match param_lookup(all, k) {
            Some(p) => Some((true, p)),
            None => lookup(m, k),
        }),
    decreases all.len(),
{
    if all.len() == 0 {
        assert(!has_key(all, k));
    } else {
        let n = all.len() - 1;
        let d = all.drop_last();
        lemma_take_succ(all, n, k);
        assert(all.take(n + 1) =~= all);
        assert(all.take(n) =~= d);
        law_reload_then_get_policy(m, d, k);
        let w = with_all_params(m, d);
        let id = all.last().0;
        let ps = all.last().1.values@;
        law_update_then_get_policy(w, id, ps);
        if k != id {
            let enabled = match lookup(w, id) {
                Some(st) => st.0,
                None => true,
            };
            lemma_lookup_insert(w, id, (enabled, ps), k);
        }
    }
}

/// The parameters of every policy, each enabled once set.
pub struct PolicyEngine {
    policies: KeyedVec<PolicyState>,
}

impl PolicyEngine {
    /// Every policy is enabled: nothing ever disables one.
    #[verifier::type_invariant]
    spec fn all_policies_enabled(self) -> bool {
        all_enabled(view_values(self.policies@))
    }

    /// The policies, keyed by id: whether each is enabled, and its parameters.
    pub closed spec fn states(&self) -> Seq<(Seq<char>, (bool, Seq<(Seq<char>, ParamValue)>))> {
        view_values(self.policies@)
    }

    /// An engine without policies.
    pub fn new() -> (r: Self)
        ensures
            r.states().len() == 0,
    {
        let r = PolicyEngine { policies: KeyedVec::new() };
        proof {
            assert(view_values(r.policies@) =~= Seq::<(Seq<char>, (bool, Seq<(Seq<char>, ParamValue)>))>::empty());
        }
        r
    }

    /// Sets the parameters of `policy_id` (a new policy starts enabled);
    /// the `PolicyUpdated` event to publish is returned. The caller journals
    /// the update.
    pub fn update_policy(&mut self, policy_id: &str, parameters: PolicyParameters) -> (r: SystemEvent)
        ensures
            final(self).states() == with_params(old(self).states(), policy_id@, parameters.values@),
            keys_unique(old(self).states()) && all_enabled(old(self).states()),
            keys_unique(final(self).states()) && all_enabled(final(self).states()),
            forall|k: Seq<char>|
                #[trigger] lookup(final(self).states(), k) == (if k == policy_id@ {
                    Some((true, parameters@))
                } else {
                    lookup(old(self).states(), k)
                }),
            r matches SystemEvent::PolicyUpdated { policy_id: p } && p@ == policy_id@,
    {
        proof {
            use_type_invariant(&*self);
            use_type_invariant(&self.policies);
            lemma_view_values(self.policies@, policy_id@);
            law_update_then_get_policy(view_values(self.policies@), policy_id@, parameters.values@);
            let m = view_values(self.policies@);
            let enabled = match lookup(m, policy_id@) {
                Some(st) => st.0,
                None => true,
            };
            assert forall|k: Seq<char>|
                #[trigger] lookup(with_params(m, policy_id@, parameters.values@), k) == (if k
                    == policy_id@ {
                    Some((true, parameters@))
                } else {
                    lookup(m, k)
                }) by {
                lemma_lookup_insert(m, policy_id@, (enabled, parameters.values@), k);
            }
        }
        let enabled = match self.policies.get(policy_id) {
            Some(st) => st.enabled,
            None => true,
        };
        let st = PolicyState { enabled, parameters };
        proof {
            lemma_view_values_insert(self.policies@, policy_id@, st);
        }
        let mut policies = KeyedVec::new();
        std::mem::swap(&mut policies, &mut self.policies);
        policies.insert(String::from_str(policy_id), st);
        self.policies = policies;
        SystemEvent::PolicyUpdated { policy_id: String::from_str(policy_id) }
    }

    /// Sets the parameters of every policy in `params`, in order; the
    /// `PoliciesReloaded` event to publish is returned. The caller journals
    /// the reload with the number of policies.
    pub fn reload_policies(&mut self, params: &KeyedVec<PolicyParameters>) -> (r: SystemEvent)
        ensures
            final(self).states() == with_all_params(old(self).states(), params@),
            keys_unique(old(self).states()) && all_enabled(old(self).states()),
            keys_unique(final(self).states()) && all_enabled(final(self).states()),
            forall|k: Seq<char>|
                #[trigger] lookup(final(self).states(), k) == (match param_lookup(params@, k) {
                    Some(p) => Some((true, p)),
                    None => lookup(old(self).states(), k),
                }),
            r matches SystemEvent::PoliciesReloaded,
    {
        proof {
            use_type_invariant(&*self);
            use_type_invariant(&self.policies);
            use_type_invariant(params);
            lemma_view_values(self.policies@, Seq::empty());
            assert forall|k: Seq<char>|
                #[trigger] lookup(with_all_params(old(self).states(), params@), k) == (match param_lookup(
                    params@,
                    k,
                ) {
                    Some(p) => Some((true, p)),
                    None => lookup(old(self).states(), k),
                }) by {
                law_reload_then_get_policy(old(self).states(), params@, k);
            }
            law_reload_then_get_policy(old(self).states(), params@, Seq::empty());
        }
        let n = params.len();
        let mut i: usize = 0;
        proof {
            assert(params@.take(0) =~= Seq::<(Seq<char>, PolicyParameters)>::empty());
        }
        while i < n
            invariant
                n == params@.len(),
                i <= n,
                self.states() == with_all_params(old(self).states(), params@.take(i as int)),
            decreases n - i,
        {
            proof {
                assert(params@.take(i + 1).drop_last() =~= params@.take(i as int));
            }
            let id = params.key_at(i);
            let p = params.value_at(i).clone();
            self.update_policy(id.as_str(), p);
            i = i + 1;
        }
        proof {
            assert(params@.take(n as int) =~= params@);
        }
        SystemEvent::PoliciesReloaded
    }

    /// A summary of every policy, in the order they are kept.
    pub fn list_policies(&self) -> (r: Vec<PolicySummary>)
        ensures
            keys_unique(self.states()) && all_enabled(self.states()),
            r@.len() == self.states().len(),
            forall|i: int|
                0 <= i < r@.len() ==> {
                    &&& (#[trigger] r@[i]).policy_id@ == self.states()[i].0
                    &&& r@[i].enabled == self.states()[i].1.0
                    &&& r@[i].parameters.values@ == self.states()[i].1.1
                },
    {
        proof {
            use_type_invariant(self);
            use_type_invariant(&self.policies);
            lemma_view_values(self.policies@, Seq::empty());
        }
        let n = self.policies.len();
        let mut r: Vec<PolicySummary> = Vec::new();
        let mut i: usize = 0;
        while i < n
            invariant
                n == self.states().len(),
                n == self.policies@.len(),
                i <= n,
                r@.len() == i,
                forall|j: int|
                    0 <= j < i ==> {
                        &&& (#[trigger] r@[j]).policy_id@ == self.states()[j].0
                        &&& r@[j].enabled == self.states()[j].1.0
                        &&& r@[j].parameters.values@ == self.states()[j].1.1
                    },
            decreases n - i,
        {
            let st = self.policies.value_at(i);
            r.push(
                PolicySummary {
                    policy_id: self.policies.key_at(i).clone(),
                    enabled: st.enabled,
                    parameters: st.parameters.clone(),
                },
            );
            i = i + 1;
        }
        r
    }

    /// A summary of policy `policy_id`, if it is known; it is always enabled.
    pub fn get_policy(&self, policy_id: &str) -> (r: Option<PolicySummary>)
        ensures
            keys_unique(self.states()) && all_enabled(self.states()),
            r is Some <==> has_key(self.states(), policy_id@),
            r matches Some(sm) ==> sm.policy_id@ == policy_id@ && sm.enabled && lookup(
                self.states(),
                policy_id@,
            ) == Some((true, sm.parameters.values@)),
    {
        proof {
            use_type_invariant(self);
            use_type_invariant(&self.policies);
            lemma_view_values(self.policies@, policy_id@);
            if has_key(self.policies@, policy_id@) {
                let p = crate::keyed::key_pos(self.policies@, policy_id@);
                assert(view_values(self.policies@)[p].1.0);
            }
        }
        match self.policies.get(policy_id) {
            Some(st) => Some(
                PolicySummary {
                    policy_id: String::from_str(policy_id),
                    enabled: st.enabled,
                    parameters: st.parameters.clone(),
                },
            ),
            None => None,
        }
    }
}

} // verus!
