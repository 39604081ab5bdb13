use vstd::prelude::*;
use crate::domain::commands::CommandAck;
use crate::domain::errors::concat_str;
use crate::domain::events::SystemEvent;
use crate::domain::journal::{JournalKind, kind_name};
use crate::ports::service_command::ServiceCommand;
use crate::keyed::str_equal;

verus! {

/// Whether the kill switch is active after the journal entry of type `t`:
/// `Some` for an activation or a clearing, `None` for any other entry.
pub open spec fn switch_entry(t: Seq<char>) -> Option<bool> {
    if t == "kill_switch_activate"@ {
        Some(true)
    } else if t == "kill_switch_clear"@ {
        Some(false)
    } else {
        None
    }
}

/// The kill-switch state restored from the types of the journal entries:
/// the latest activation or clearing decides; with neither, `current` stays.
pub open spec fn restored_active(types: Seq<Seq<char>>, current: bool) -> bool
    decreases types.len(),
{
    if types.len() == 0 {
        current
    } else {
        match switch_entry(types.last()) {
            Some(b) => b,
            None => restored_active(types.drop_last(), current),
        }
    }
}

/// How many of the latest journal entries are read to restore the switch.
pub const RESTORE_WINDOW: usize = 100;

/// The command that makes a service cancel all its open orders; `payload`
/// is the JSON text naming the reason.
pub fn cancel_all_command(payload: String) -> (c: ServiceCommand)
    ensures
        c.command_type@ == "cancel_all_orders"@,
        c.payload == payload,
        c.timeout_secs == Some(5u64),
{
    ServiceCommand {
        command_type: String::from_str("cancel_all_orders"),
        payload,
        timeout_secs: Some(5),
    }
}

/// The services told to cancel all orders when the switch is activated, in
/// the order they are told.
pub fn cancel_targets() -> (r: Vec<&'static str>)
    ensures
        r@.map_values(|s: &str| s@) == seq!["execution_service"@, "broker_gateway"@],
{
    let mut v: Vec<&'static str> = Vec::new();
    v.push("execution_service");
    v.push("broker_gateway");
    assert(v@.map_values(|s: &str| s@) =~= seq!["execution_service"@, "broker_gateway"@]);
    v
}

/// The emergency stop of all trading.
pub struct KillSwitchController {
    active: bool,
}

impl KillSwitchController {
    /// Whether the switch is active.
    pub closed spec fn spec_active(&self) -> bool {
        self.active
    }

    /// A switch that is not active.
    pub fn new() -> (r: Self)
        ensures
            !r.spec_active(),
    {
        KillSwitchController { active: false }
    }

    /// Activates the switch. The caller journals the activation first; the
    /// returned event is then published, and the answer is "Kill switch
    /// activated: <reason>".
    pub fn activate(&mut self, reason: &str, actor: &str) -> (r: (SystemEvent, CommandAck))
        ensures
            final(self).spec_active(),
            r.0 matches SystemEvent::KillSwitchActivated { actor: a, reason: why } && a@ == actor@
                && why@ == reason@,
            r.1.accepted && r.1.saga_id is None,
            r.1.message@ == "Kill switch activated: "@ + reason@,
    {
        self.active = true;
        let event = SystemEvent::KillSwitchActivated {
            actor: String::from_str(actor),
            reason: String::from_str(reason),
        };
        (event, CommandAck::accepted(concat_str("Kill switch activated: ", reason)))
    }

    /// Clears the switch. The caller journals the clearing first; the
    /// returned event is then published, and the answer is "Kill switch
    /// cleared: <reason>".
    pub fn clear(&mut self, reason: &str, actor: &str) -> (r: (SystemEvent, CommandAck))
        ensures
            !final(self).spec_active(),
            r.0 matches SystemEvent::KillSwitchCleared { actor: a, reason: why } && a@ == actor@
                && why@ == reason@,
            r.1.accepted && r.1.saga_id is None,
            r.1.message@ == "Kill switch cleared: "@ + reason@,
    {
        self.active = false;
        let event = SystemEvent::KillSwitchCleared {
            actor: String::from_str(actor),
            reason: String::from_str(reason),
        };
        (event, CommandAck::accepted(concat_str("Kill switch cleared: ", reason)))
    }

    /// Whether the switch is active.
    pub fn is_active(&self) -> (b: bool)
        ensures
            b == self.spec_active(),
    {
        self.active
    }

    /// Restores the switch from the types of the journal entries, oldest
    /// first: the latest activation or clearing decides.
    pub fn restore_from_journal(&mut self, entry_types: &Vec<String>)
        ensures
            final(self).spec_active() == restored_active(
                entry_types@.map_values(|t: String| t@),
                old(self).spec_active(),
            ),
    {
        let ghost types = entry_types@.map_values(|t: String| t@);
        let mut i = entry_types.len();
        proof {
            assert(types.take(i as int) =~= types);
        }
        while i > 0
            invariant
                i <= entry_types@.len(),
                types == entry_types@.map_values(|t: String| t@),
                restored_active(types, old(self).active) == restored_active(
                    types.take(i as int),
                    old(self).active,
                ),
                self.active == old(self).active,
            decreases i,
        {
            let t = entry_types[i - 1].as_str();
            proof {
                assert(types.take(i as int).last() == entry_types@[i - 1]@);
                assert(types.take(i as int).drop_last() =~= types.take(i - 1));
            }
            if str_equal(t, "kill_switch_activate") {
                self.active = true;
                return;
            }
            if str_equal(t, "kill_switch_clear") {
                self.active = false;
                return;
            }
            i = i - 1;
        }
        proof {
            assert(types.take(0) =~= Seq::<Seq<char>>::empty());
        }
    }
}

/// Restoring after the journal entry of an activation finds the switch
/// active, and after that of a clearing finds it inactive, whatever came
/// before.
pub proof fn law_restore_reads_latest_switch(types: Seq<Seq<char>>, current: bool)
    ensures
        restored_active(types.push(kind_name(JournalKind::KillSwitchActivate)), current),
        !restored_active(types.push(kind_name(JournalKind::KillSwitchClear)), current),
{
    assert(types.push("kill_switch_activate"@).last() == "kill_switch_activate"@);
    assert(types.push("kill_switch_clear"@).last() == "kill_switch_clear"@);
    assert("kill_switch_clear"@ != "kill_switch_activate"@) by {
        reveal_strlit("kill_switch_clear");
        reveal_strlit("kill_switch_activate");
        assert("kill_switch_clear"@[12] != "kill_switch_activate"@[12]);
    }
}

/// Entries that neither activate nor clear the switch do not change what is
/// restored.
pub proof fn law_restore_ignores_other_entries(types: Seq<Seq<char>>, current: bool, t: Seq<char>)
    requires
        switch_entry(t) is None,
    ensures
        restored_active(types.push(t), current) == restored_active(types, current),
{
    assert(types.push(t).drop_last() =~= types);
}

/// Only activations and clearings decide the restored switch: an entry of
/// any other type (a mode change, a saga step, an audit record, ...) added
/// to the journal leaves the restored state as it was.
pub proof fn law_only_switch_entries_decide(types: Seq<Seq<char>>, current: bool, t: Seq<char>)
    requires
        t != "kill_switch_activate"@,
        t != "kill_switch_clear"@,
    ensures
        restored_active(types.push(t), current) == restored_active(types, current),
{
    assert(types.push(t).drop_last() =~= types);
}

} // verus!
