use vstd::prelude::*;
use vstd::string::*;
use crate::time_source::{new_uuid_string, now_nanos};

verus! {

/// What one step of a workflow or saga does. A command is a JSON document,
/// held as its text.
#[derive(Debug)]
pub enum WorkflowAction {
    SendCommand { target_service: String, command: String },
    WaitForEvent { event_type: String, timeout_secs: Option<u64> },
    EvaluatePolicy { policy_id: String },
    Delay { duration_secs: u64 },
}

impl Clone for WorkflowAction {
    fn clone(&self) -> (r: Self)
        ensures
            r == *self,
    {
        match self {
            WorkflowAction::SendCommand { target_service, command } => WorkflowAction::SendCommand {
                target_service: target_service.clone(),
                command: command.clone(),
            },
            WorkflowAction::WaitForEvent { event_type, timeout_secs } =>
                WorkflowAction::WaitForEvent {
                event_type: event_type.clone(),
                timeout_secs: *timeout_secs,
            },
            WorkflowAction::EvaluatePolicy { policy_id } => WorkflowAction::EvaluatePolicy {
                policy_id: policy_id.clone(),
            },
            WorkflowAction::Delay { duration_secs } => WorkflowAction::Delay {
                duration_secs: *duration_secs,
            },
        }
    }
}

/// Whether `a` sends the command with text `command` to `target`.
pub open spec fn sends(a: WorkflowAction, target: Seq<char>, command: Seq<char>) -> bool {
    a matches WorkflowAction::SendCommand { target_service, command: c } && target_service@
        == target && c@ == command
}

/// Whether `a` waits for events of type `event_type` for at most `timeout`.
pub open spec fn waits_for(a: WorkflowAction, event_type: Seq<char>, timeout: Option<u64>) -> bool {
    a matches WorkflowAction::WaitForEvent { event_type: t, timeout_secs } && t@ == event_type
        && timeout_secs == timeout
}

/// Whether `a` evaluates the policy `policy_id`.
pub open spec fn evaluates(a: WorkflowAction, policy_id: Seq<char>) -> bool {
    a matches WorkflowAction::EvaluatePolicy { policy_id: p } && p@ == policy_id
}

/// The action that sends `command` (JSON text) to `target`.
pub fn send_command(target: &str, command: &str) -> (a: WorkflowAction)
    ensures
        sends(a, target@, command@),
{
    WorkflowAction::SendCommand {
        target_service: String::from_str(target),
        command: String::from_str(command),
    }
}

/// The action that waits for an event of type `event_type`.
pub fn wait_for_event(event_type: &str, timeout_secs: Option<u64>) -> (a: WorkflowAction)
    ensures
        waits_for(a, event_type@, timeout_secs),
{
    WorkflowAction::WaitForEvent { event_type: String::from_str(event_type), timeout_secs }
}

/// The action that evaluates the policy `policy_id`.
pub fn evaluate_policy(policy_id: &str) -> (a: WorkflowAction)
    ensures
        evaluates(a, policy_id@),
{
    WorkflowAction::EvaluatePolicy { policy_id: String::from_str(policy_id) }
}

/// One step of a workflow.
#[derive(Debug)]
pub struct WorkflowStepDef {
    pub name: String,
    pub action: WorkflowAction,
    pub compensation: Option<WorkflowAction>,
    pub timeout_secs: Option<u64>,
}

/// A named, versioned sequence of steps.
#[derive(Debug)]
pub struct WorkflowDefinition {
    pub id: String,
    pub name: String,
    pub version: u32,
    pub steps: Vec<WorkflowStepDef>,
}

/// Where a running workflow stands.
#[derive(Debug, PartialEq, Eq)]
pub enum WorkflowInstanceState {
    Running,
    Paused,
    Completed,
    Failed { reason: String },
    Compensating,
}

impl Clone for WorkflowInstanceState {
    fn clone(&self) -> (r: Self)
        ensures
            r == *self,
    {
        match self {
            WorkflowInstanceState::Running => WorkflowInstanceState::Running,
            WorkflowInstanceState::Paused => WorkflowInstanceState::Paused,
            WorkflowInstanceState::Completed => WorkflowInstanceState::Completed,
            WorkflowInstanceState::Failed { reason } => WorkflowInstanceState::Failed {
                reason: reason.clone(),
            },
            WorkflowInstanceState::Compensating => WorkflowInstanceState::Compensating,
        }
    }
}

/// One run of a workflow.
#[derive(Debug)]
pub struct WorkflowInstance {
    pub instance_id: String,
    pub workflow_id: String,
    pub current_step: usize,
    pub state: WorkflowInstanceState,
    pub started_at_ns: u64,
    pub updated_at_ns: u64,
}

impl Clone for WorkflowInstance {
    fn clone(&self) -> (r: Self)
        ensures
            r == *self,
    {
        WorkflowInstance {
            instance_id: self.instance_id.clone(),
            workflow_id: self.workflow_id.clone(),
            current_step: self.current_step,
            state: self.state.clone(),
            started_at_ns: self.started_at_ns,
            updated_at_ns: self.updated_at_ns,
        }
    }
}

impl WorkflowInstance {
    /// A new run of `workflow_id`, at its first step, started now under a
    /// fresh random id.
    pub fn new(workflow_id: &str) -> (r: Self)
        ensures
            r.instance_id@.len() == 36,
            r.workflow_id@ == workflow_id@,
            r.current_step == 0,
            r.state == WorkflowInstanceState::Running,
            r.started_at_ns == r.updated_at_ns,
    {
        let now = now_nanos();
        WorkflowInstance {
            instance_id: new_uuid_string(),
            workflow_id: String::from_str(workflow_id),
            current_step: 0,
            state: WorkflowInstanceState::Running,
            started_at_ns: now,
            updated_at_ns: now,
        }
    }
}

/// What is listed of one run of a workflow.
#[derive(Debug)]
pub struct WorkflowInstanceSummary {
    pub instance_id: String,
    pub workflow_id: String,
    pub current_step: usize,
    pub total_steps: usize,
    pub state: WorkflowInstanceState,
}

} // verus!
