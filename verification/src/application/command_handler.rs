use vstd::prelude::*;
use vstd::string::*;
use crate::domain::commands::{CommandAck, OrchestratorCommand};
use crate::domain::events::{SystemEvent, WorkflowEvent};
use crate::domain::operation_mode::OperationMode;

verus! {

/// The event under which a command is journalled.
pub open spec fn records_command(cmd: OrchestratorCommand, e: SystemEvent) -> bool {
    match cmd {
        OrchestratorCommand::ActivateKillSwitch { reason, actor } => e
            == SystemEvent::KillSwitchActivated { actor, reason },
        OrchestratorCommand::ClearKillSwitch { reason, actor } => e
            == SystemEvent::KillSwitchCleared { actor, reason },
        OrchestratorCommand::TransitionMode { target_mode, .. } => e
            == SystemEvent::ModeTransitionStarted { from: OperationMode::Paper, to: target_mode },
        OrchestratorCommand::UpdatePolicy { policy_id, .. } => e == SystemEvent::PolicyUpdated {
            policy_id,
        },
        OrchestratorCommand::ReloadPolicies => e == SystemEvent::PoliciesReloaded,
        OrchestratorCommand::PauseService { service_id, .. } => e
            == SystemEvent::ServiceDeregistered { service_id },
        OrchestratorCommand::ResumeService { service_id, .. } => e matches SystemEvent::ServiceRegistered {
            service_id: s,
            metadata,
        } && s == service_id && metadata@ == "{}"@,
        _ => e == SystemEvent::OrchestratorStarted,
    }
}

/// The event under which `cmd` is journalled: kill-switch commands as the
/// matching kill-switch event, a mode change as its start (from paper), a
/// policy update or reload as such, a pause as a deregistration and a
/// resume as a registration with empty metadata; every other command as
/// `OrchestratorStarted`.
pub fn command_event(cmd: &OrchestratorCommand) -> (e: SystemEvent)
    ensures
        records_command(*cmd, e),
{
    match cmd {
        OrchestratorCommand::ActivateKillSwitch { reason, actor } => SystemEvent::KillSwitchActivated {
            actor: actor.clone(),
            reason: reason.clone(),
        },
        OrchestratorCommand::ClearKillSwitch { reason, actor } => SystemEvent::KillSwitchCleared {
            actor: actor.clone(),
            reason: reason.clone(),
        },
        OrchestratorCommand::TransitionMode { target_mode, .. } => SystemEvent::ModeTransitionStarted {
            from: OperationMode::Paper,
            to: *target_mode,
        },
        OrchestratorCommand::UpdatePolicy { policy_id, .. } => SystemEvent::PolicyUpdated {
            policy_id: policy_id.clone(),
        },
        OrchestratorCommand::ReloadPolicies => SystemEvent::PoliciesReloaded,
        OrchestratorCommand::PauseService { service_id, .. } => SystemEvent::ServiceDeregistered {
            service_id: service_id.clone(),
        },
        OrchestratorCommand::ResumeService { service_id, .. } => SystemEvent::ServiceRegistered {
            service_id: service_id.clone(),
            metadata: String::from_str("{}"),
        },
        _ => SystemEvent::OrchestratorStarted,
    }
}

/// Processes one command: the event to journal (stamped now, under a fresh
/// id; it is journalled as a `JournalKind::Command` entry) and the answer
/// "Command accepted" to give once it is journalled.
pub fn process_command(cmd: &OrchestratorCommand) -> (r: (WorkflowEvent, CommandAck))
    ensures
        records_command(*cmd, r.0.event),
        r.0.correlation_id is None,
        r.1.accepted && r.1.saga_id is None && r.1.message@ == "Command accepted"@,
{
    let event = WorkflowEvent::new(command_event(cmd));
    (event, CommandAck::accepted(String::from_str("Command accepted")))
}

/// Kill-switch commands are journalled as the events of the controller's
/// own operations: a clearing command as `KillSwitchCleared` (never as an
/// activation) and an activating one as `KillSwitchActivated` (never as a
/// clearing), each with the command's actor and reason.
pub proof fn law_kill_switch_commands_journal_their_effect(cmd: OrchestratorCommand, e: SystemEvent)
    requires
        records_command(cmd, e),
    ensures
        cmd matches OrchestratorCommand::ClearKillSwitch { reason, actor } ==> (e matches SystemEvent::KillSwitchCleared {
            actor: a,
            reason: why,
        } && a == actor && why == reason),
        cmd is ClearKillSwitch ==> !(e is KillSwitchActivated),
        cmd matches OrchestratorCommand::ActivateKillSwitch { reason, actor } ==> (e matches SystemEvent::KillSwitchActivated {
            actor: a,
            reason: why,
        } && a == actor && why == reason),
        cmd is ActivateKillSwitch ==> !(e is KillSwitchCleared),
{
}

} // verus!
