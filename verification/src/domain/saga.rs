use vstd::prelude::*;
use vstd::string::*;
use crate::domain::workflow::WorkflowAction;
use crate::time_source::{new_uuid_string, now_nanos};

verus! {

/// A named sequence of steps, each with the action that undoes it.
#[derive(Debug)]
pub struct SagaDefinition {
    pub id: String,
    pub saga_type: String,
    pub steps: Vec<SagaStepDef>,
}

/// One step of a saga: what it does, what undoes it, and how long it may take.
#[derive(Debug)]
pub struct SagaStepDef {
    pub name: String,
    pub action: WorkflowAction,
    pub compensation: WorkflowAction,
    pub timeout_secs: Option<u64>,
}

/// Where a saga run stands.
#[derive(Debug, PartialEq, Eq)]
pub enum SagaInstanceState {
    Running,
    Compensating,
    Completed,
    Failed { reason: String },
}

impl Clone for SagaInstanceState {
    fn clone(&self) -> (r: Self)
        ensures
            r == *self,
    {
        match self {
            SagaInstanceState::Running => SagaInstanceState::Running,
            SagaInstanceState::Compensating => SagaInstanceState::Compensating,
            SagaInstanceState::Completed => SagaInstanceState::Completed,
            SagaInstanceState::Failed { reason } => SagaInstanceState::Failed {
                reason: reason.clone(),
            },
        }
    }
}

/// One run of a saga. `completed_steps` lists, oldest first, the steps
/// done so far, which compensation undoes newest first.
#[derive(Debug)]
pub struct SagaInstance {
    pub instance_id: String,
    pub saga_type: String,
    pub current_step: usize,
    pub state: SagaInstanceState,
    pub completed_steps: Vec<usize>,
    pub started_at_ns: u64,
    pub updated_at_ns: u64,
}

/// A saga run as a mathematical value.
pub struct SagaInstanceView {
    pub instance_id: Seq<char>,
    pub saga_type: Seq<char>,
    pub current_step: usize,
    pub state: SagaInstanceState,
    pub completed_steps: Seq<usize>,
    pub started_at_ns: u64,
    pub updated_at_ns: u64,
}

impl View for SagaInstance {
    type V = SagaInstanceView;

    open spec fn view(&self) -> SagaInstanceView {
        SagaInstanceView {
            instance_id: self.instance_id@,
            saga_type: self.saga_type@,
            current_step: self.current_step,
            state: self.state,
            completed_steps: self.completed_steps@,
            started_at_ns: self.started_at_ns,
            updated_at_ns: self.updated_at_ns,
        }
    }
}

impl Clone for SagaInstance {
    fn clone(&self) -> (r: Self)
        ensures
            r@ == self@,
    {
        let steps = self.completed_steps.clone();
        proof {
            assert(steps@ =~= self.completed_steps@);
        }
        SagaInstance {
            instance_id: self.instance_id.clone(),
            saga_type: self.saga_type.clone(),
            current_step: self.current_step,
            state: self.state.clone(),
            completed_steps: steps,
            started_at_ns: self.started_at_ns,
            updated_at_ns: self.updated_at_ns,
        }
    }
}

/// The progress of a run after one more step: the current step is
/// recorded as completed and the next one becomes current.
pub open spec fn step_forward(current: int, done: Seq<usize>) -> (int, Seq<usize>) {
    (current + 1, done.push(current as usize))
}

/// The progress of a run after one step is compensated: the most recently
/// completed step becomes current again; with nothing completed, nothing
/// changes.
pub open spec fn step_back(current: int, done: Seq<usize>) -> (int, Seq<usize>) {
    if done.len() > 0 {
        (done.last() as int, done.drop_last())
    } else {
        (current, done)
    }
}

/// Compensating one step undoes advancing one step: the run is back at the
/// step it was at, with the same steps completed.
pub proof fn law_compensate_undoes_advance(current: usize, done: Seq<usize>)
    ensures
        ({
            let (c, d) = step_forward(current as int, done);
            step_back(c, d)
        }) == (current as int, done),
{
    assert(done.push(current).drop_last() =~= done);
}

impl SagaInstance {
    /// A new run of `saga_type`, at its first step with nothing completed,
    /// started now under a fresh random id.
    pub fn new(saga_type: &str) -> (r: Self)
        ensures
            r.instance_id@.len() == 36,
            r.saga_type@ == saga_type@,
            r.current_step == 0,
            r.state == SagaInstanceState::Running,
            r.completed_steps@.len() == 0,
            r.started_at_ns == r.updated_at_ns,
    {
        let now = now_nanos();
        SagaInstance {
            instance_id: new_uuid_string(),
            saga_type: String::from_str(saga_type),
            current_step: 0,
            state: SagaInstanceState::Running,
            completed_steps: Vec::new(),
            started_at_ns: now,
            updated_at_ns: now,
        }
    }

    /// Records the current step as completed and moves to the next one.
    pub fn advance_step(&mut self)
        requires
            old(self).current_step < usize::MAX,
        ensures
            (final(self).current_step as int, final(self).completed_steps@) == step_forward(
                old(self).current_step as int,
                old(self).completed_steps@,
            ),
            final(self)@ == (SagaInstanceView {
                current_step: final(self).current_step,
                completed_steps: final(self).completed_steps@,
                updated_at_ns: final(self).updated_at_ns,
                ..old(self)@
            }),
    {
        self.completed_steps.push(self.current_step);
        self.current_step = self.current_step + 1;
        self.updated_at_ns = now_nanos();
    }

    /// Marks the run as compensating.
    pub fn start_compensation(&mut self)
        ensures
            final(self)@ == (SagaInstanceView {
                state: SagaInstanceState::Compensating,
                updated_at_ns: final(self).updated_at_ns,
                ..old(self)@
            }),
    {
        self.state = SagaInstanceState::Compensating;
        self.updated_at_ns = now_nanos();
    }

    /// Undoes the most recently completed step: it becomes current again.
    pub fn compensate_step(&mut self)
        ensures
            (final(self).current_step as int, final(self).completed_steps@) == step_back(
                old(self).current_step as int,
                old(self).completed_steps@,
            ),
            final(self)@ == (SagaInstanceView {
                current_step: final(self).current_step,
                completed_steps: final(self).completed_steps@,
                updated_at_ns: final(self).updated_at_ns,
                ..old(self)@
            }),
    {
        match self.completed_steps.pop() {
            Some(last) => {
                self.current_step = last;
            },
            None => {},
        }
        self.updated_at_ns = now_nanos();
    }
}

/// What is listed of one saga run.
#[derive(Debug)]
pub struct SagaInstanceSummary {
    pub instance_id: String,
    pub saga_type: String,
    pub current_step: usize,
    pub total_steps: usize,
    pub state: SagaInstanceState,
}

/// The action that undoes the step at `step_index`.
#[derive(Debug)]
pub struct CompensationAction {
    pub step_index: usize,
    pub action: WorkflowAction,
}

} // verus!
