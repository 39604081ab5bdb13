use vstd::prelude::*;
use crate::domain::events::WorkflowEvent;

verus! {

/// What a journal entry records; each kind is written under its own type
/// name, which replay reads back.
#[derive(Debug, Clone, Copy, PartialEq, Eq)]
pub enum JournalKind {
    Event,
    Command,
    Audit,
    ModeTransitionStarted,
    ModeTransitionCompleted,
    KillSwitchActivate,
    KillSwitchClear,
    PolicyUpdated,
    PoliciesReloaded,
    WorkflowStarted,
    WorkflowStepCompleted,
    SagaStarted,
    SagaStepCompleted,
    SagaCompleted,
    SagaCompensated,
}

/// The type name under which entries of kind `k` are written.
pub open spec fn kind_name(k: JournalKind) -> Seq<char> {
    match k {
        JournalKind::Event => "event"@,
        JournalKind::Command => "command"@,
        JournalKind::Audit => "audit"@,
        JournalKind::ModeTransitionStarted => "mode_transition_started"@,
        JournalKind::ModeTransitionCompleted => "mode_transition_completed"@,
        JournalKind::KillSwitchActivate => "kill_switch_activate"@,
        JournalKind::KillSwitchClear => "kill_switch_clear"@,
        JournalKind::PolicyUpdated => "policy_updated"@,
        JournalKind::PoliciesReloaded => "policies_reloaded"@,
        JournalKind::WorkflowStarted => "workflow_started"@,
        JournalKind::WorkflowStepCompleted => "workflow_step_completed"@,
        JournalKind::SagaStarted => "saga_started"@,
        JournalKind::SagaStepCompleted => "saga_step_completed"@,
        JournalKind::SagaCompleted => "saga_completed"@,
        JournalKind::SagaCompensated => "saga_compensated"@,
    }
}

impl JournalKind {
    /// The type name under which entries of this kind are written.
    pub fn as_str(&self) -> (s: &'static str)
        ensures
            s@ == kind_name(*self),
    {
        match self {
            JournalKind::Event => "event",
            JournalKind::Command => "command",
            JournalKind::Audit => "audit",
            JournalKind::ModeTransitionStarted => "mode_transition_started",
            JournalKind::ModeTransitionCompleted => "mode_transition_completed",
            JournalKind::KillSwitchActivate => "kill_switch_activate",
            JournalKind::KillSwitchClear => "kill_switch_clear",
            JournalKind::PolicyUpdated => "policy_updated",
            JournalKind::PoliciesReloaded => "policies_reloaded",
            JournalKind::WorkflowStarted => "workflow_started",
            JournalKind::WorkflowStepCompleted => "workflow_step_completed",
            JournalKind::SagaStarted => "saga_started",
            JournalKind::SagaStepCompleted => "saga_step_completed",
            JournalKind::SagaCompleted => "saga_completed",
            JournalKind::SagaCompensated => "saga_compensated",
        }
    }
}

/// One line of the append-only journal. The payload is a JSON document,
/// held as its text.
#[derive(Debug)]
pub struct JournalEntry {
    pub sequence: Option<u64>,
    pub timestamp_ns: u64,
    pub entry_type: String,
    pub payload: String,
    pub checksum: Option<String>,
}

impl Clone for JournalEntry {
    fn clone(&self) -> (r: Self)
        ensures
            r == *self,
    {
        JournalEntry {
            sequence: self.sequence,
            timestamp_ns: self.timestamp_ns,
            entry_type: self.entry_type.clone(),
            payload: self.payload.clone(),
            checksum: match &self.checksum {
                Some(c) => Some(c.clone()),
                None => None,
            },
        }
    }
}

impl JournalEntry {
    /// An entry of kind `kind` stamped `timestamp_ns`, carrying `payload`;
    /// the journal gives it its sequence number when it is appended.
    pub fn new(kind: JournalKind, timestamp_ns: u64, payload: String) -> (r: Self)
        ensures
            r.sequence is None,
            r.timestamp_ns == timestamp_ns,
            r.entry_type@ == kind_name(kind),
            r.payload == payload,
            r.checksum is None,
    {
        JournalEntry {
            sequence: None,
            timestamp_ns,
            entry_type: kind.as_str().to_string(),
            payload,
            checksum: None,
        }
    }
}

/// A journal entry as read back for replay: its type, and its payload
/// decoded as a journalled event when it is one.
#[derive(Debug, Clone)]
pub struct DecodedEntry {
    pub entry_type: String,
    pub event: Option<WorkflowEvent>,
}

} // verus!
