use vstd::prelude::*;
use vstd::string::*;

verus! {

/// A command sent to a managed service; the payload is a JSON document,
/// held as its text.
#[derive(Debug, PartialEq, Eq)]
pub struct ServiceCommand {
    pub command_type: String,
    pub payload: String,
    pub timeout_secs: Option<u64>,
}

impl Clone for ServiceCommand {
    fn clone(&self) -> (r: Self)
        ensures
            r == *self,
    {
        ServiceCommand {
            command_type: self.command_type.clone(),
            payload: self.payload.clone(),
            timeout_secs: self.timeout_secs,
        }
    }
}

/// A service's answer to a command.
#[derive(Debug, PartialEq, Eq)]
pub struct ServiceAck {
    pub success: bool,
    pub message: String,
}

impl Clone for ServiceAck {
    fn clone(&self) -> (r: Self)
        ensures
            r == *self,
    {
        ServiceAck { success: self.success, message: self.message.clone() }
    }
}

/// Whether `c` asks for `command_type` with an empty JSON object and five
/// seconds to answer.
pub open spec fn is_simple_command(c: ServiceCommand, command_type: Seq<char>) -> bool {
    &&& c.command_type@ == command_type
    &&& c.payload@ == "{}"@
    &&& c.timeout_secs == Some(5u64)
}

/// The command that pauses a service.
pub fn pause_command() -> (c: ServiceCommand)
    ensures
        is_simple_command(c, "pause"@),
{
    ServiceCommand {
        command_type: String::from_str("pause"),
        payload: String::from_str("{}"),
        timeout_secs: Some(5),
    }
}

/// The command that resumes a service.
pub fn resume_command() -> (c: ServiceCommand)
    ensures
        is_simple_command(c, "resume"@),
{
    ServiceCommand {
        command_type: String::from_str("resume"),
        payload: String::from_str("{}"),
        timeout_secs: Some(5),
    }
}

/// The services a broadcast command goes to, in order.
pub open spec fn broadcast_services() -> Seq<Seq<char>> {
    seq![
        "broker_gateway"@,
        "market_data_service"@,
        "feature_service"@,
        "model_service"@,
        "strategy_service"@,
        "risk_service"@,
        "execution_service"@,
    ]
}

/// The services a broadcast command goes to, in order.
pub fn broadcast_targets() -> (r: Vec<&'static str>)
    ensures
        r@.map_values(|s: &str| s@) == broadcast_services(),
{
    let mut v: Vec<&'static str> = Vec::new();
    v.push("broker_gateway");
    v.push("market_data_service");
    v.push("feature_service");
    v.push("model_service");
    v.push("strategy_service");
    v.push("risk_service");
    v.push("execution_service");
    assert(v@.map_values(|s: &str| s@) =~= broadcast_services());
    v
}

} // verus!
