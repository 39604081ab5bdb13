use vstd::prelude::*;
use vstd::string::*;
use crate::application::saga_coordinator::SagaCoordinator;
use crate::domain::saga::{SagaDefinition, SagaStepDef};
use crate::domain::workflow::{
    WorkflowAction, evaluate_policy, evaluates, send_command, sends, wait_for_event, waits_for,
};
use crate::keyed::seq_insert;

verus! {

/// Whether `d` is the operation mode transition saga, step by step.
pub open spec fn is_operation_mode_transition_saga(d: SagaDefinition) -> bool {
    &&& d.id@ == "operation_mode_transition"@
    &&& d.saga_type@ == "operation_mode_transition"@
    &&& d.steps@.len() == 7
    &&& step_sends(d.steps@[0], "pause_strategy"@, "strategy_service"@, "{\"type\":\"pause\",\"reason\":\"mode_transition\"}"@, "strategy_service"@, "{\"type\":\"resume\",\"reason\":\"mode_transition_compensated\"}"@, Some(10))
    &&& step_sends(d.steps@[1], "flush_pending_intents"@, "execution_service"@, "{\"type\":\"flush_pending\"}"@, "execution_service"@, "{\"type\":\"noop\"}"@, Some(15))
    &&& step_sends(d.steps@[2], "pause_risk"@, "risk_service"@, "{\"type\":\"pause\",\"reason\":\"mode_transition\"}"@, "risk_service"@, "{\"type\":\"resume\",\"reason\":\"mode_transition_compensated\"}"@, Some(10))
    &&& step_waits(d.steps@[3], "wait_for_risk_ack"@, "risk_service.paused"@, Some(10), "risk_service"@, "{\"type\":\"resume\"}"@, Some(10))
    &&& step_sends(d.steps@[4], "broadcast_mode_change"@, "_broadcast"@, "{\"type\":\"mode_change\"}"@, "_broadcast"@, "{\"type\":\"mode_change_rollback\"}"@, Some(5))
    &&& step_sends(d.steps@[5], "resume_strategy"@, "strategy_service"@, "{\"type\":\"resume\",\"reason\":\"mode_transition_complete\"}"@, "strategy_service"@, "{\"type\":\"pause\"}"@, Some(10))
    &&& step_sends(d.steps@[6], "resume_risk"@, "risk_service"@, "{\"type\":\"resume\",\"reason\":\"mode_transition_complete\"}"@, "risk_service"@, "{\"type\":\"pause\"}"@, Some(10))
}

/// Whether step `s` is named `name`, sends `command` to `target`, is undone
/// by sending `undo` to `undo_target`, and may take `timeout` seconds.
pub open spec fn step_sends(
    s: SagaStepDef,
    name: Seq<char>,
    target: Seq<char>,
    command: Seq<char>,
    undo_target: Seq<char>,
    undo: Seq<char>,
    timeout: Option<u64>,
) -> bool {
    &&& s.name@ == name
    &&& sends(s.action, target, command)
    &&& sends(s.compensation, undo_target, undo)
    &&& s.timeout_secs == timeout
}

/// Whether step `s` is named `name`, waits for `event_type` (at most
/// `wait`), is undone by sending `undo` to `undo_target`, and may take
/// `timeout` seconds.
pub open spec fn step_waits(
    s: SagaStepDef,
    name: Seq<char>,
    event_type: Seq<char>,
    wait: Option<u64>,
    undo_target: Seq<char>,
    undo: Seq<char>,
    timeout: Option<u64>,
) -> bool {
    &&& s.name@ == name
    &&& waits_for(s.action, event_type, wait)
    &&& sends(s.compensation, undo_target, undo)
    &&& s.timeout_secs == timeout
}

/// Whether step `s` is named `name`, evaluates policy `policy_id`, is undone
/// by sending `undo` to `undo_target`, and may take `timeout` seconds.
pub open spec fn step_evaluates(
    s: SagaStepDef,
    name: Seq<char>,
    policy_id: Seq<char>,
    undo_target: Seq<char>,
    undo: Seq<char>,
    timeout: Option<u64>,
) -> bool {
    &&& s.name@ == name
    &&& evaluates(s.action, policy_id)
    &&& sends(s.compensation, undo_target, undo)
    &&& s.timeout_secs == timeout
}

fn step(name: &str, action: WorkflowAction, compensation: WorkflowAction, timeout_secs: u64) -> (s:
    SagaStepDef)
    ensures
        s.name@ == name@,
        s.action == action,
        s.compensation == compensation,
        s.timeout_secs == Some(timeout_secs),
{
    SagaStepDef { name: String::from_str(name), action, compensation, timeout_secs: Some(timeout_secs) }
}

fn definition(id: &str, steps: Vec<SagaStepDef>) -> (d: SagaDefinition)
    ensures
        d.id@ == id@,
        d.saga_type@ == id@,
        d.steps == steps,
{
    SagaDefinition { id: String::from_str(id), saga_type: String::from_str(id), steps }
}

/// The saga that moves the system to another operation mode: strategy and
/// risk are paused, pending intents flushed, the change broadcast, and both
/// resumed.
pub fn operation_mode_transition_saga() -> (d: SagaDefinition)
    ensures
        is_operation_mode_transition_saga(d),
{
    let mut steps: Vec<SagaStepDef> = Vec::new();
    steps.push(step("pause_strategy", send_command("strategy_service", "{\"type\":\"pause\",\"reason\":\"mode_transition\"}"), send_command("strategy_service", "{\"type\":\"resume\",\"reason\":\"mode_transition_compensated\"}"), 10));
    steps.push(step("flush_pending_intents", send_command("execution_service", "{\"type\":\"flush_pending\"}"), send_command("execution_service", "{\"type\":\"noop\"}"), 15));
    steps.push(step("pause_risk", send_command("risk_service", "{\"type\":\"pause\",\"reason\":\"mode_transition\"}"), send_command("risk_service", "{\"type\":\"resume\",\"reason\":\"mode_transition_compensated\"}"), 10));
    steps.push(step("wait_for_risk_ack", wait_for_event("risk_service.paused", Some(10)), send_command("risk_service", "{\"type\":\"resume\"}"), 10));
    steps.push(step("broadcast_mode_change", send_command("_broadcast", "{\"type\":\"mode_change\"}"), send_command("_broadcast", "{\"type\":\"mode_change_rollback\"}"), 5));
    steps.push(step("resume_strategy", send_command("strategy_service", "{\"type\":\"resume\",\"reason\":\"mode_transition_complete\"}"), send_command("strategy_service", "{\"type\":\"pause\"}"), 10));
    steps.push(step("resume_risk", send_command("risk_service", "{\"type\":\"resume\",\"reason\":\"mode_transition_complete\"}"), send_command("risk_service", "{\"type\":\"pause\"}"), 10));
    definition("operation_mode_transition", steps)
}

/// Whether `d` is the kill switch activation saga, step by step.
pub open spec fn is_kill_switch_activation_saga(d: SagaDefinition) -> bool {
    &&& d.id@ == "kill_switch_activation"@
    &&& d.saga_type@ == "kill_switch_activation"@
    &&& d.steps@.len() == 5
    &&& step_sends(d.steps@[0], "pause_strategy"@, "strategy_service"@, "{\"type\":\"pause\",\"reason\":\"kill_switch\"}"@, "strategy_service"@, "{\"type\":\"resume\"}"@, Some(5))
    &&& step_sends(d.steps@[1], "cancel_all_execution"@, "execution_service"@, "{\"type\":\"cancel_all_orders\",\"reason\":\"kill_switch\"}"@, "execution_service"@, "{\"type\":\"noop\"}"@, Some(10))
    &&& step_sends(d.steps@[2], "cancel_broker_orders"@, "broker_gateway"@, "{\"type\":\"cancel_all_orders\",\"reason\":\"kill_switch\"}"@, "broker_gateway"@, "{\"type\":\"noop\"}"@, Some(10))
    &&& step_sends(d.steps@[3], "pause_risk"@, "risk_service"@, "{\"type\":\"pause\",\"reason\":\"kill_switch\"}"@, "risk_service"@, "{\"type\":\"resume\"}"@, Some(5))
    &&& step_sends(d.steps@[4], "pause_market_data"@, "market_data_service"@, "{\"type\":\"pause\",\"reason\":\"kill_switch\"}"@, "market_data_service"@, "{\"type\":\"resume\"}"@, Some(5))
}

/// The saga that stops all trading: strategy paused, every order cancelled
/// at the execution service and the broker, risk and market data paused.
pub fn kill_switch_activation_saga() -> (d: SagaDefinition)
    ensures
        is_kill_switch_activation_saga(d),
{
    let mut steps: Vec<SagaStepDef> = Vec::new();
    steps.push(step("pause_strategy", send_command("strategy_service", "{\"type\":\"pause\",\"reason\":\"kill_switch\"}"), send_command("strategy_service", "{\"type\":\"resume\"}"), 5));
    steps.push(step("cancel_all_execution", send_command("execution_service", "{\"type\":\"cancel_all_orders\",\"reason\":\"kill_switch\"}"), send_command("execution_service", "{\"type\":\"noop\"}"), 10));
    steps.push(step("cancel_broker_orders", send_command("broker_gateway", "{\"type\":\"cancel_all_orders\",\"reason\":\"kill_switch\"}"), send_command("broker_gateway", "{\"type\":\"noop\"}"), 10));
    steps.push(step("pause_risk", send_command("risk_service", "{\"type\":\"pause\",\"reason\":\"kill_switch\"}"), send_command("risk_service", "{\"type\":\"resume\"}"), 5));
    steps.push(step("pause_market_data", send_command("market_data_service", "{\"type\":\"pause\",\"reason\":\"kill_switch\"}"), send_command("market_data_service", "{\"type\":\"resume\"}"), 5));
    definition("kill_switch_activation", steps)
}

/// Whether `d` is the service restart saga, step by step.
pub open spec fn is_service_restart_saga(d: SagaDefinition) -> bool {
    &&& d.id@ == "service_restart"@
    &&& d.saga_type@ == "service_restart"@
    &&& d.steps@.len() == 5
    &&& step_sends(d.steps@[0], "drain_service"@, "_target"@, "{\"type\":\"drain\"}"@, "_target"@, "{\"type\":\"resume\"}"@, Some(30))
    &&& step_sends(d.steps@[1], "stop_service"@, "_target"@, "{\"type\":\"stop\"}"@, "_target"@, "{\"type\":\"start\"}"@, Some(10))
    &&& step_sends(d.steps@[2], "start_service"@, "_target"@, "{\"type\":\"start\"}"@, "_target"@, "{\"type\":\"stop\"}"@, Some(15))
    &&& step_waits(d.steps@[3], "wait_for_health"@, "service_health_changed"@, Some(30), "_target"@, "{\"type\":\"stop\"}"@, Some(30))
    &&& step_sends(d.steps@[4], "reconcile_state"@, "_target"@, "{\"type\":\"reconcile\"}"@, "_target"@, "{\"type\":\"stop\"}"@, Some(15))
}

/// The saga that restarts one service (`_target`): drain, stop, start, wait
/// until it reports health, reconcile its state.
pub fn service_restart_saga() -> (d: SagaDefinition)
    ensures
        is_service_restart_saga(d),
{
    let mut steps: Vec<SagaStepDef> = Vec::new();
    steps.push(step("drain_service", send_command("_target", "{\"type\":\"drain\"}"), send_command("_target", "{\"type\":\"resume\"}"), 30));
    steps.push(step("stop_service", send_command("_target", "{\"type\":\"stop\"}"), send_command("_target", "{\"type\":\"start\"}"), 10));
    steps.push(step("start_service", send_command("_target", "{\"type\":\"start\"}"), send_command("_target", "{\"type\":\"stop\"}"), 15));
    steps.push(step("wait_for_health", wait_for_event("service_health_changed", Some(30)), send_command("_target", "{\"type\":\"stop\"}"), 30));
    steps.push(step("reconcile_state", send_command("_target", "{\"type\":\"reconcile\"}"), send_command("_target", "{\"type\":\"stop\"}"), 15));
    definition("service_restart", steps)
}

/// Whether `d` is the policy update saga, step by step.
pub open spec fn is_policy_update_saga(d: SagaDefinition) -> bool {
    &&& d.id@ == "policy_update"@
    &&& d.saga_type@ == "policy_update"@
    &&& d.steps@.len() == 5
    &&& step_evaluates(d.steps@[0], "validate_new_policy"@, "_target_policy"@, "_noop"@, "{\"type\":\"noop\"}"@, Some(5))
    &&& step_sends(d.steps@[1], "broadcast_policy_update"@, "_broadcast"@, "{\"type\":\"policy_update\"}"@, "_broadcast"@, "{\"type\":\"policy_rollback\"}"@, Some(10))
    &&& step_waits(d.steps@[2], "wait_for_ack_strategy"@, "policy_applied.strategy_service"@, Some(15), "_broadcast"@, "{\"type\":\"policy_rollback\"}"@, Some(10))
    &&& step_waits(d.steps@[3], "wait_for_ack_risk"@, "policy_applied.risk_service"@, Some(15), "_broadcast"@, "{\"type\":\"policy_rollback\"}"@, Some(10))
    &&& step_waits(d.steps@[4], "wait_for_ack_execution"@, "policy_applied.execution_service"@, Some(15), "_broadcast"@, "{\"type\":\"policy_rollback\"}"@, Some(10))
}

/// The saga that rolls out a policy change: validate it, broadcast it, and
/// wait until strategy, risk and execution acknowledge it.
pub fn policy_update_saga() -> (d: SagaDefinition)
    ensures
        is_policy_update_saga(d),
{
    let mut steps: Vec<SagaStepDef> = Vec::new();
    steps.push(step("validate_new_policy", evaluate_policy("_target_policy"), send_command("_noop", "{\"type\":\"noop\"}"), 5));
    steps.push(step("broadcast_policy_update", send_command("_broadcast", "{\"type\":\"policy_update\"}"), send_command("_broadcast", "{\"type\":\"policy_rollback\"}"), 10));
    steps.push(step("wait_for_ack_strategy", wait_for_event("policy_applied.strategy_service", Some(15)), send_command("_broadcast", "{\"type\":\"policy_rollback\"}"), 10));
    steps.push(step("wait_for_ack_risk", wait_for_event("policy_applied.risk_service", Some(15)), send_command("_broadcast", "{\"type\":\"policy_rollback\"}"), 10));
    steps.push(step("wait_for_ack_execution", wait_for_event("policy_applied.execution_service", Some(15)), send_command("_broadcast", "{\"type\":\"policy_rollback\"}"), 10));
    definition("policy_update", steps)
}

/// Whether `d` is the circuit breaker open saga, step by step.
pub open spec fn is_circuit_breaker_open_saga(d: SagaDefinition) -> bool {
    &&& d.id@ == "circuit_breaker_open"@
    &&& d.saga_type@ == "circuit_breaker_open"@
    &&& d.steps@.len() == 4
    &&& step_sends(d.steps@[0], "isolate_service"@, "_target"@, "{\"type\":\"isolate\"}"@, "_target"@, "{\"type\":\"reconnect\"}"@, Some(5))
    &&& step_sends(d.steps@[1], "notify_dependents"@, "_broadcast"@, "{\"type\":\"service_degraded\"}"@, "_broadcast"@, "{\"type\":\"service_restored\"}"@, Some(5))
    &&& step_waits(d.steps@[2], "start_health_probe"@, "circuit_breaker.half_open"@, Some(60), "_target"@, "{\"type\":\"isolate\"}"@, Some(5))
    &&& step_sends(d.steps@[3], "close_circuit_breaker"@, "_target"@, "{\"type\":\"reconnect\"}"@, "_target"@, "{\"type\":\"isolate\"}"@, Some(5))
}

/// The saga run when a circuit breaker opens: isolate the service, tell its
/// dependents, wait for the half-open probe, then close the breaker.
pub fn circuit_breaker_open_saga() -> (d: SagaDefinition)
    ensures
        is_circuit_breaker_open_saga(d),
{
    let mut steps: Vec<SagaStepDef> = Vec::new();
    steps.push(step("isolate_service", send_command("_target", "{\"type\":\"isolate\"}"), send_command("_target", "{\"type\":\"reconnect\"}"), 5));
    steps.push(step("notify_dependents", send_command("_broadcast", "{\"type\":\"service_degraded\"}"), send_command("_broadcast", "{\"type\":\"service_restored\"}"), 5));
    steps.push(step("start_health_probe", wait_for_event("circuit_breaker.half_open", Some(60)), send_command("_target", "{\"type\":\"isolate\"}"), 5));
    steps.push(step("close_circuit_breaker", send_command("_target", "{\"type\":\"reconnect\"}"), send_command("_target", "{\"type\":\"isolate\"}"), 5));
    definition("circuit_breaker_open", steps)
}

/// Registers the five named sagas, each under its id (which is also its
/// type).
pub fn register_all_named_sagas(coordinator: &mut SagaCoordinator)
    ensures
        final(coordinator).runs() == old(coordinator).runs(),
        exists|a: SagaDefinition, b: SagaDefinition, c: SagaDefinition, e: SagaDefinition, f: SagaDefinition|
            {
                &&& is_operation_mode_transition_saga(a) && is_kill_switch_activation_saga(b)
                &&& is_service_restart_saga(c) && is_policy_update_saga(e)
                &&& is_circuit_breaker_open_saga(f)
                &&& final(coordinator).defs() == seq_insert(
                    seq_insert(
                        seq_insert(
                            seq_insert(seq_insert(old(coordinator).defs(), a.id@, a), b.id@, b),
                            c.id@,
                            c,
                        ),
                        e.id@,
                        e,
                    ),
                    f.id@,
                    f,
                )
            },
{
    let a = operation_mode_transition_saga();
    let b = kill_switch_activation_saga();
    let c = service_restart_saga();
    let e = policy_update_saga();
    let f = circuit_breaker_open_saga();
    let ghost (ga, gb, gc, ge, gf) = (a, b, c, e, f);
    coordinator.register_saga(a);
    coordinator.register_saga(b);
    coordinator.register_saga(c);
    coordinator.register_saga(e);
    coordinator.register_saga(f);
    assert(is_operation_mode_transition_saga(ga) && is_kill_switch_activation_saga(gb));
}

} // verus!
