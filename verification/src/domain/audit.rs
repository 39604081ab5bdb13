use vstd::prelude::*;
use vstd::string::*;
use crate::time_source::{new_uuid_string, now_nanos};

verus! {

/// Who performed an audited action.
#[derive(Debug, PartialEq, Eq)]
pub enum AuditActor {
    Human { user_id: String },
    Automated { policy_id: String },
    System,
}

impl Clone for AuditActor {
    fn clone(&self) -> (r: Self)
        ensures
            r == *self,
    {
        match self {
            AuditActor::Human { user_id } => AuditActor::Human { user_id: user_id.clone() },
            AuditActor::Automated { policy_id } => AuditActor::Automated {
                policy_id: policy_id.clone(),
            },
            AuditActor::System => AuditActor::System,
        }
    }
}

/// What was done.
#[derive(Debug, Clone, Copy, PartialEq, Eq)]
pub enum AuditAction {
    KillSwitchActivated,
    KillSwitchCleared,
    ModeTransitionStarted,
    ModeTransitionCompleted,
    ModeTransitionFailed,
    PolicyUpdated,
    PoliciesReloaded,
    ServicePaused,
    ServiceResumed,
    CircuitBreakerReset,
    CircuitBreakerConfigured,
    RateLimiterConfigured,
    WorkflowTriggered,
    WorkflowCancelled,
    ConfigReloaded,
}

/// How it ended.
#[derive(Debug, Clone, Copy, PartialEq, Eq)]
pub enum AuditOutcome {
    Success,
    PartialSuccess,
    Failure,
}

/// One record of the audit trail. The states before and after are JSON
/// documents, held as their text.
#[derive(Debug)]
pub struct AuditEntry {
    pub id: String,
    pub timestamp_ns: u64,
    pub actor: AuditActor,
    pub action: AuditAction,
    pub target: Option<String>,
    pub before_state: Option<String>,
    pub after_state: Option<String>,
    pub reason: Option<String>,
    pub trace_id: Option<String>,
    pub outcome: AuditOutcome,
}

/// A copy of an optional text.
fn clone_opt(s: &Option<String>) -> (r: Option<String>)
    ensures
        r == *s,
{
    match s {
        Some(t) => Some(t.clone()),
        None => None,
    }
}

impl Clone for AuditEntry {
    fn clone(&self) -> (r: Self)
        ensures
            r == *self,
    {
        AuditEntry {
            id: self.id.clone(),
            timestamp_ns: self.timestamp_ns,
            actor: self.actor.clone(),
            action: self.action,
            target: clone_opt(&self.target),
            before_state: clone_opt(&self.before_state),
            after_state: clone_opt(&self.after_state),
            reason: clone_opt(&self.reason),
            trace_id: clone_opt(&self.trace_id),
            outcome: self.outcome,
        }
    }
}

impl AuditEntry {
    /// A successful entry of `action` by `actor`, stamped now, with a fresh
    /// id and nothing else recorded.
    pub fn new(actor: AuditActor, action: AuditAction) -> (r: Self)
        ensures
            r.id@.len() == 36,
            r.actor == actor,
            r.action == action,
            r.target is None,
            r.before_state is None,
            r.after_state is None,
            r.reason is None,
            r.trace_id is None,
            r.outcome == AuditOutcome::Success,
    {
        AuditEntry {
            id: new_uuid_string(),
            timestamp_ns: now_nanos(),
            actor,
            action,
            target: None,
            before_state: None,
            after_state: None,
            reason: None,
            trace_id: None,
            outcome: AuditOutcome::Success,
        }
    }

    /// The entry with its target set.
    pub fn with_target(self, target: &str) -> (r: Self)
        ensures
            r == (AuditEntry { target: Some(r.target->0), ..self }),
            r.target->0@ == target@,
    {
        AuditEntry { target: Some(target.to_string()), ..self }
    }

    /// The entry with its reason set.
    pub fn with_reason(self, reason: &str) -> (r: Self)
        ensures
            r == (AuditEntry { reason: Some(r.reason->0), ..self }),
            r.reason->0@ == reason@,
    {
        AuditEntry { reason: Some(reason.to_string()), ..self }
    }

    /// The entry with the state before the action set (a JSON text).
    pub fn with_before_state(self, state: String) -> (r: Self)
        ensures
            r == (AuditEntry { before_state: Some(state), ..self }),
    {
        AuditEntry { before_state: Some(state), ..self }
    }

    /// The entry with the state after the action set (a JSON text).
    pub fn with_after_state(self, state: String) -> (r: Self)
        ensures
            r == (AuditEntry { after_state: Some(state), ..self }),
    {
        AuditEntry { after_state: Some(state), ..self }
    }

    /// The entry with its trace id set.
    pub fn with_trace_id(self, trace_id: &str) -> (r: Self)
        ensures
            r == (AuditEntry { trace_id: Some(r.trace_id->0), ..self }),
            r.trace_id->0@ == trace_id@,
    {
        AuditEntry { trace_id: Some(trace_id.to_string()), ..self }
    }

    /// The entry with its outcome set.
    pub fn with_outcome(self, outcome: AuditOutcome) -> (r: Self)
        ensures
            r == (AuditEntry { outcome, ..self }),
    {
        AuditEntry { outcome, ..self }
    }
}

} // verus!
