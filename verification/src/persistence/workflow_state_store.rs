use vstd::prelude::*;
use crate::domain::workflow::WorkflowInstance;
use crate::keyed::{KeyedVec, lookup, seq_insert, seq_remove_key};

verus! {

/// The last saved state of each workflow run, keyed by instance id.
#[derive(Debug)]
pub struct WorkflowStateStore {
    states: KeyedVec<WorkflowInstance>,
}

impl WorkflowStateStore {
    /// The saved runs, keyed by instance id.
    pub closed spec fn states(&self) -> Seq<(Seq<char>, WorkflowInstance)> {
        self.states@
    }

    /// An empty store.
    pub fn new() -> (r: Self)
        ensures
            r.states().len() == 0,
    {
        WorkflowStateStore { states: KeyedVec::new() }
    }

    /// Saves `instance` under its id, replacing what was saved there.
    pub fn save(&mut self, instance: WorkflowInstance)
        ensures
            final(self).states() == seq_insert(old(self).states(), instance.instance_id@, instance),
    {
        let id = instance.instance_id.clone();
        self.states.insert(id, instance);
    }

    /// A copy of the run saved under `instance_id`.
    pub fn get(&self, instance_id: &str) -> (r: Option<WorkflowInstance>)
        ensures
            r == lookup(self.states(), instance_id@),
    {
        match self.states.get(instance_id) {
            Some(w) => Some(w.clone()),
            None => None,
        }
    }

    /// Copies of all saved runs.
    pub fn list_all(&self) -> (r: Vec<WorkflowInstance>)
        ensures
            r@ == self.states().map_values(|e: (Seq<char>, WorkflowInstance)| e.1),
    {
        let n = self.states.len();
        let mut r: Vec<WorkflowInstance> = Vec::new();
        let mut i: usize = 0;
        while i < n
            invariant
                n == self.states().len(),
                i <= n,
                r@ == self.states().take(i as int).map_values(
                    |e: (Seq<char>, WorkflowInstance)| e.1,
                ),
            decreases n - i,
        {
            r.push(self.states.value_at(i).clone());
            proof {
                assert(r@ =~= self.states().take(i + 1).map_values(
                    |e: (Seq<char>, WorkflowInstance)| e.1,
                ));
            }
            i = i + 1;
        }
        proof {
            assert(self.states().take(n as int) =~= self.states());
        }
        r
    }

    /// Forgets the run saved under `instance_id`.
    pub fn remove(&mut self, instance_id: &str)
        ensures
            final(self).states() == seq_remove_key(old(self).states(), instance_id@),
    {
        self.states.remove(instance_id);
    }
}

/// A saved run is read back as saved, a removed one is gone, and the runs
/// saved under other ids are untouched by either.
pub proof fn law_read_after_write(
    states: Seq<(Seq<char>, WorkflowInstance)>,
    instance: WorkflowInstance,
    id: Seq<char>,
)
    requires
        crate::keyed::keys_unique(states),
    ensures
        lookup(seq_insert(states, instance.instance_id@, instance), id) == (if id
            == instance.instance_id@ {
            Some(instance)
        } else {
            lookup(states, id)
        }),
        lookup(seq_remove_key(states, instance.instance_id@), id) == (if id
            == instance.instance_id@ {
            None
        } else {
            lookup(states, id)
        }),
{
    crate::keyed::lemma_lookup_insert(states, instance.instance_id@, instance, id);
    crate::keyed::lemma_lookup_remove(states, instance.instance_id@, id);
}

} // verus!
