use vstd::prelude::*;
use vstd::string::*;
use crate::application::mode_controller::from_to_message;
use crate::domain::operation_mode::{OperationMode, transition_allowed};
use crate::domain::policy::PolicyDecision;

verus! {

/// The transitions the policy allows, in the order they are checked.
pub open spec fn allowed_pairs() -> Seq<(OperationMode, OperationMode)> {
    seq![
        (OperationMode::Offline, OperationMode::Paper),
        (OperationMode::Offline, OperationMode::Readonly),
        (OperationMode::Paper, OperationMode::Live),
        (OperationMode::Paper, OperationMode::Readonly),
        (OperationMode::Paper, OperationMode::Offline),
        (OperationMode::Live, OperationMode::Paper),
        (OperationMode::Live, OperationMode::Readonly),
        (OperationMode::Live, OperationMode::Offline),
        (OperationMode::Readonly, OperationMode::Paper),
        (OperationMode::Readonly, OperationMode::Offline),
    ]
}

/// Allows a change of operation mode only along the transition table.
pub struct ModeTransitionPolicy {
    allowed_transitions: Vec<(OperationMode, OperationMode)>,
}

impl ModeTransitionPolicy {
    /// The allowed transitions.
    pub closed spec fn allowed(&self) -> Seq<(OperationMode, OperationMode)> {
        self.allowed_transitions@
    }

    /// The policy with the orchestrator's transition table.
    pub fn new() -> (r: Self)
        ensures
            r.allowed() == allowed_pairs(),
    {
        let mut v: Vec<(OperationMode, OperationMode)> = Vec::new();
        v.push((OperationMode::Offline, OperationMode::Paper));
        v.push((OperationMode::Offline, OperationMode::Readonly));
        v.push((OperationMode::Paper, OperationMode::Live));
        v.push((OperationMode::Paper, OperationMode::Readonly));
        v.push((OperationMode::Paper, OperationMode::Offline));
        v.push((OperationMode::Live, OperationMode::Paper));
        v.push((OperationMode::Live, OperationMode::Readonly));
        v.push((OperationMode::Live, OperationMode::Offline));
        v.push((OperationMode::Readonly, OperationMode::Paper));
        v.push((OperationMode::Readonly, OperationMode::Offline));
        let r = ModeTransitionPolicy { allowed_transitions: v };
        assert(r.allowed() =~= allowed_pairs());
        r
    }

    /// Allows the change from `from` to `to` when it is in the table, and
    /// otherwise denies it with "Transition from <from> to <to> is not
    /// allowed".
    pub fn evaluate(&self, from: &OperationMode, to: &OperationMode) -> (d: PolicyDecision)
        ensures
            self.allowed().contains((*from, *to)) ==> d == PolicyDecision::Allow,
            !self.allowed().contains((*from, *to)) ==> (d matches PolicyDecision::Deny { reason }
                && reason@ == from_to_message("Transition from "@, *from, *to) + " is not allowed"@),
    {
        let n = self.allowed_transitions.len();
        let mut i: usize = 0;
        while i < n
            invariant
                n == self.allowed().len(),
                i <= n,
                forall|j: int| 0 <= j < i ==> #[trigger] self.allowed()[j] != (*from, *to),
            decreases n - i,
        {
            let (a, b) = self.allowed_transitions[i];
            if a == *from && b == *to {
                proof {
                    assert(self.allowed()[i as int] == (*from, *to));
                }
                return PolicyDecision::Allow;
            }
            i = i + 1;
        }
        let s = String::from_str("Transition from ");
        let s = s.concat(from.as_str());
        let s = s.concat(" to ");
        let s = s.concat(to.as_str());
        let s = s.concat(" is not allowed");
        PolicyDecision::Deny { reason: s }
    }
}

/// The policy's table and the mode controller's rule agree: the policy
/// allows exactly the transitions the controller may make.
pub proof fn law_policy_agrees_with_transition_rule(from: OperationMode, to: OperationMode)
    ensures
        allowed_pairs().contains((from, to)) == transition_allowed(from, to),
{
    let t = allowed_pairs();
    if transition_allowed(from, to) {
        match (from, to) {
            (OperationMode::Offline, OperationMode::Paper) => assert(t[0] == (from, to)),
            (OperationMode::Offline, OperationMode::Readonly) => assert(t[1] == (from, to)),
            (OperationMode::Paper, OperationMode::Live) => assert(t[2] == (from, to)),
            (OperationMode::Paper, OperationMode::Readonly) => assert(t[3] == (from, to)),
            (OperationMode::Paper, OperationMode::Offline) => assert(t[4] == (from, to)),
            (OperationMode::Live, OperationMode::Paper) => assert(t[5] == (from, to)),
            (OperationMode::Live, OperationMode::Readonly) => assert(t[6] == (from, to)),
            (OperationMode::Live, OperationMode::Offline) => assert(t[7] == (from, to)),
            (OperationMode::Readonly, OperationMode::Paper) => assert(t[8] == (from, to)),
            (OperationMode::Readonly, OperationMode::Offline) => assert(t[9] == (from, to)),
            _ => {},
        }
    } else {
        if t.contains((from, to)) {
            let i = choose|i: int| 0 <= i < t.len() && t[i] == (from, to);
            assert(transition_allowed(t[i].0, t[i].1));
        }
    }
}

} // verus!
