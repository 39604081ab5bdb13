use vstd::prelude::*;
use vstd::string::*;

verus! {

/// Where the journal is kept when the configuration does not say.
pub fn default_journal_path() -> (r: String)
    ensures
        r@ == "./data/journal"@,
{
    String::from_str("./data/journal")
}

/// Seconds between two health polls when the configuration does not say.
pub fn default_health_poll_interval_secs() -> (r: u64)
    ensures
        r == 5,
{
    5
}

/// Capacity of the command channel when the configuration does not say.
pub fn default_command_channel_size() -> (r: usize)
    ensures
        r == 1000,
{
    1000
}

/// The token-signing secret when the configuration does not say.
pub fn default_jwt_secret() -> (r: String)
    ensures
        r@ == "orchestrator-secret-change-me"@,
{
    String::from_str("orchestrator-secret-change-me")
}

} // verus!
