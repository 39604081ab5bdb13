use vstd::prelude::*;
use vstd::string::*;
use crate::domain::errors::{OrchestratorError, concat_str};
use crate::domain::events::SystemEvent;
use crate::domain::workflow::{
    WorkflowDefinition, WorkflowInstance, WorkflowInstanceState, WorkflowInstanceSummary,
};
use crate::keyed::{KeyedVec, has_key, key_pos, keys_unique, lemma_lookup_insert, lookup, seq_insert};
use crate::time_source::now_nanos;

verus! {

/// Whether `e` is a workflow failure with message `msg`.
pub open spec fn is_workflow_error(e: OrchestratorError, msg: Seq<char>) -> bool {
    e matches OrchestratorError::WorkflowError(m) && m@ == msg
}

/// The number of steps of workflow `id`, or 0 when it is not registered.
pub open spec fn steps_of(defs: Seq<(Seq<char>, WorkflowDefinition)>, id: Seq<char>) -> int {
    match lookup(defs, id) {
        Some(d) => d.steps@.len() as int,
        None => 0,
    }
}

/// The workflow definitions, keyed by id, and the runs of them, keyed by run
/// id. Journalling is the caller's: each operation says which event records it.
pub struct WorkflowEngine {
    definitions: KeyedVec<WorkflowDefinition>,
    instances: KeyedVec<WorkflowInstance>,
}

impl WorkflowEngine {
    /// The registered definitions, keyed by id.
    pub closed spec fn defs(&self) -> Seq<(Seq<char>, WorkflowDefinition)> {
        self.definitions@
    }

    /// The runs, keyed by id.
    pub closed spec fn runs(&self) -> Seq<(Seq<char>, WorkflowInstance)> {
        self.instances@
    }

    /// An engine with no definitions and no runs.
    pub fn new() -> (r: Self)
        ensures
            r.defs().len() == 0,
            r.runs().len() == 0,
    {
        WorkflowEngine { definitions: KeyedVec::new(), instances: KeyedVec::new() }
    }

    /// Registers `definition` under its id, replacing one with the same id.
    pub fn register_workflow(&mut self, definition: WorkflowDefinition)
        ensures
            keys_unique(final(self).runs()),
            final(self).defs() == seq_insert(old(self).defs(), definition.id@, definition),
            final(self).runs() == old(self).runs(),
    {
        proof {
            use_type_invariant(&self.instances);
        }
        let id = definition.id.clone();
        self.definitions.insert(id, definition);
    }

    /// Opens a run of workflow `workflow_id`: a fresh run at its first step,
    /// or `WorkflowError("Workflow not found: <id>")` when it is not
    /// registered. The run is not stored: the caller journals
    /// `WorkflowStarted` and then hands it to `insert_instance`.
    pub fn trigger_workflow(&self, workflow_id: &str) -> (r: Result<WorkflowInstance, OrchestratorError>)
        ensures
            keys_unique(self.runs()),
            r is Ok <==> has_key(self.defs(), workflow_id@),
            r matches Ok(inst) ==> inst.workflow_id@ == workflow_id@ && inst.current_step == 0
                && inst.state == WorkflowInstanceState::Running && inst.instance_id@.len() == 36,
            r matches Err(e) ==> is_workflow_error(e, "Workflow not found: "@ + workflow_id@),
    {
        proof {
            use_type_invariant(&self.instances);
        }
        match self.definitions.get(workflow_id) {
            Some(_) => Ok(WorkflowInstance::new(workflow_id)),
            None => Err(
                OrchestratorError::WorkflowError(concat_str("Workflow not found: ", workflow_id)),
            ),
        }
    }

    /// The event that journals the opening of `instance`.
    pub fn started_event(instance: &WorkflowInstance) -> (e: SystemEvent)
        ensures
            e matches SystemEvent::WorkflowStarted { workflow_id, instance_id } && workflow_id@
                == instance.workflow_id@ && instance_id@ == instance.instance_id@,
    {
        SystemEvent::WorkflowStarted {
            workflow_id: instance.workflow_id.clone(),
            instance_id: instance.instance_id.clone(),
        }
    }

    /// Stores a run under its id.
    pub fn insert_instance(&mut self, instance: WorkflowInstance)
        ensures
            keys_unique(old(self).runs()),
            keys_unique(final(self).runs()),
            lookup(final(self).runs(), instance.instance_id@) == Some(instance),
            final(self).runs() == seq_insert(old(self).runs(), instance.instance_id@, instance),
            final(self).defs() == old(self).defs(),
    {
        proof {
            use_type_invariant(&self.instances);
        }
        proof {
            lemma_lookup_insert(self.instances@, instance.instance_id@, instance, instance.instance_id@);
        }
        let id = instance.instance_id.clone();
        self.instances.insert(id, instance);
    }

    /// Moves run `instance_id` one step on. A run already past the last step
    /// of its workflow is marked completed and nothing is journalled (`None`);
    /// otherwise its step count goes up by one and the `WorkflowStepCompleted`
    /// event with the new step is returned. An unknown run, or one whose
    /// workflow is not registered, is refused with `WorkflowError` and
    /// nothing changes.
    pub fn advance_workflow(&mut self, instance_id: &str) -> (r: Result<
        Option<SystemEvent>,
        OrchestratorError,
    >)
        ensures
            keys_unique(old(self).runs()),
            keys_unique(final(self).runs()),
            final(self).defs() == old(self).defs(),
            !has_key(old(self).runs(), instance_id@) ==> final(self).runs() == old(self).runs()
                && (r matches Err(e) && is_workflow_error(e, "Instance not found: "@ + instance_id@)),
            has_key(old(self).runs(), instance_id@) ==> ({
                let p = key_pos(old(self).runs(), instance_id@);
                let inst = old(self).runs()[p].1;
                match lookup(old(self).defs(), inst.workflow_id@) {
                    None => final(self).runs() == old(self).runs() && (r matches Err(e)
                        && is_workflow_error(e, "Workflow definition not found: "@ + inst.workflow_id@)),
                    Some(d) => if inst.current_step >= d.steps@.len() {
                        &&& final(self).runs() == old(self).runs().update(
                            p,
                            (instance_id@, WorkflowInstance { state: WorkflowInstanceState::Completed, ..inst }),
                        )
                        &&& r == Ok::<Option<SystemEvent>, OrchestratorError>(None)
                    } else {
                        &&& final(self).runs() == old(self).runs().update(
                            p,
                            (
                                instance_id@,
                                WorkflowInstance {
                                    current_step: (inst.current_step + 1) as usize,
                                    updated_at_ns: final(self).runs()[p].1.updated_at_ns,
                                    ..inst
                                },
                            ),
                        )
                        &&& r matches Ok(Some(SystemEvent::WorkflowStepCompleted { instance_id: s, step_index }))
                            && s@ == instance_id@ && step_index == inst.current_step + 1
                    },
                }
            }),
    {
        proof {
            use_type_invariant(&self.instances);
        }
        let p = match self.instances.find(instance_id) {
            Some(p) => p,
            None => {
                return Err(
                    OrchestratorError::WorkflowError(concat_str("Instance not found: ", instance_id)),
                );
            },
        };
        let mut inst = self.instances.value_at(p).clone();
        let total = match self.definitions.get(inst.workflow_id.as_str()) {
            Some(d) => d.steps.len(),
            None => {
                return Err(
                    OrchestratorError::WorkflowError(
                        concat_str("Workflow definition not found: ", inst.workflow_id.as_str()),
                    ),
                );
            },
        };
        if inst.current_step >= total {
            inst.state = WorkflowInstanceState::Completed;
            self.instances.replace_at(p, inst);
            return Ok(None);
        }
        inst.current_step = inst.current_step + 1;
        inst.updated_at_ns = now_nanos();
        let step_index = inst.current_step;
        self.instances.replace_at(p, inst);
        Ok(
            Some(
                SystemEvent::WorkflowStepCompleted {
                    instance_id: String::from_str(instance_id),
                    step_index,
                },
            ),
        )
    }

    /// A summary of every run, in the order the runs are kept, with the
    /// number of steps of its workflow (0 when that is not registered).
    pub fn list_instances(&self) -> (r: Vec<WorkflowInstanceSummary>)
        ensures
            keys_unique(self.runs()),
            r@.len() == self.runs().len(),
            forall|i: int|
                0 <= i < r@.len() ==> {
                    let inst = #[trigger] self.runs()[i].1;
                    &&& r@[i].instance_id@ == inst.instance_id@
                    &&& r@[i].workflow_id@ == inst.workflow_id@
                    &&& r@[i].current_step == inst.current_step
                    &&& r@[i].state == inst.state
                    &&& r@[i].total_steps == steps_of(self.defs(), inst.workflow_id@)
                },
    {
        proof {
            use_type_invariant(&self.instances);
        }
        let n = self.instances.len();
        let mut r: Vec<WorkflowInstanceSummary> = Vec::new();
        let mut i: usize = 0;
        while i < n
            invariant
                n == self.runs().len(),
                i <= n,
                r@.len() == i,
                forall|j: int|
                    0 <= j < i ==> {
                        let inst = #[trigger] self.runs()[j].1;
                        &&& r@[j].instance_id@ == inst.instance_id@
                        &&& r@[j].workflow_id@ == inst.workflow_id@
                        &&& r@[j].current_step == inst.current_step
                        &&& r@[j].state == inst.state
                        &&& r@[j].total_steps == steps_of(self.defs(), inst.workflow_id@)
                    },
            decreases n - i,
        {
            let inst = self.instances.value_at(i);
            let total_steps = match self.definitions.get(inst.workflow_id.as_str()) {
                Some(d) => d.steps.len(),
                None => 0,
            };
            r.push(
                WorkflowInstanceSummary {
                    instance_id: inst.instance_id.clone(),
                    workflow_id: inst.workflow_id.clone(),
                    current_step: inst.current_step,
                    total_steps,
                    state: inst.state.clone(),
                },
            );
            i = i + 1;
        }
        r
    }

    /// A copy of run `instance_id`, if there is one.
    pub fn get_instance(&self, instance_id: &str) -> (r: Option<WorkflowInstance>)
        ensures
            keys_unique(self.runs()),
            r == lookup(self.runs(), instance_id@),
    {
        proof {
            use_type_invariant(&self.instances);
        }
        match self.instances.get(instance_id) {
            Some(inst) => Some(inst.clone()),
            None => None,
        }
    }
}

} // verus!
