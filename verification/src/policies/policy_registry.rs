use vstd::prelude::*;
use crate::domain::policy::PolicyParameters;
use crate::keyed::{KeyedVec, lookup, seq_insert};

verus! {

/// The parameters of each registered policy, keyed by policy id.
#[derive(Debug)]
pub struct PolicyRegistry {
    policies: KeyedVec<PolicyParameters>,
}

impl PolicyRegistry {
    /// The registered parameters, keyed by policy id.
    pub closed spec fn entries(&self) -> Seq<(Seq<char>, PolicyParameters)> {
        self.policies@
    }

    /// An empty registry.
    pub fn new() -> (r: Self)
        ensures
            r.entries().len() == 0,
    {
        PolicyRegistry { policies: KeyedVec::new() }
    }

    /// Registers `params` for `policy_id`, replacing earlier ones.
    pub fn register(&mut self, policy_id: &str, params: PolicyParameters)
        ensures
            final(self).entries() == seq_insert(old(self).entries(), policy_id@, params),
    {
        self.policies.insert(policy_id.to_string(), params);
    }

    /// The parameters of `policy_id`.
    pub fn get(&self, policy_id: &str) -> (r: Option<&PolicyParameters>)
        ensures
            r is Some <==> lookup(self.entries(), policy_id@) is Some,
            r matches Some(p) ==> lookup(self.entries(), policy_id@) == Some(*p),
    {
        self.policies.get(policy_id)
    }

    /// Copies of every policy id with its parameters, in registration order.
    pub fn list(&self) -> (r: Vec<(String, PolicyParameters)>)
        ensures
            r@.len() == self.entries().len(),
            forall|i: int|
                0 <= i < r@.len() ==> (#[trigger] r@[i]).0@ == self.entries()[i].0 && r@[i].1@
                    == self.entries()[i].1@,
    {
        let n = self.policies.len();
        let mut r: Vec<(String, PolicyParameters)> = Vec::new();
        let mut i: usize = 0;
        while i < n
            invariant
                n == self.entries().len(),
                i <= n,
                r@.len() == i,
                forall|j: int|
                    0 <= j < i ==> (#[trigger] r@[j]).0@ == self.entries()[j].0 && r@[j].1@
                        == self.entries()[j].1@,
            decreases n - i,
        {
            r.push((self.policies.key_at(i).clone(), self.policies.value_at(i).clone()));
            i = i + 1;
        }
        r
    }
}

} // verus!
