use vstd::prelude::*;
use vstd::string::*;
use crate::domain::commands::CommandAck;
use crate::domain::errors::OrchestratorError;
use crate::domain::events::SystemEvent;
use crate::domain::journal::{DecodedEntry, JournalKind, kind_name};
use crate::domain::operation_mode::{ModeTransitionRecord, OperationMode, mode_name, transition_allowed};
use crate::keyed::str_equal;
use crate::time_source::now_nanos;

verus! {

/// How many of the latest journal entries are read to restore the mode.
pub const RESTORE_WINDOW: usize = 100;

/// `"<prefix><from> to <to>"`.
pub open spec fn from_to_message(prefix: Seq<char>, from: OperationMode, to: OperationMode) -> Seq<char> {
    prefix + mode_name(from) + " to "@ + mode_name(to)
}

fn from_to_text(prefix: &str, from: OperationMode, to: OperationMode) -> (r: String)
    ensures
        r@ == from_to_message(prefix@, from, to),
{
    let s = String::from_str(prefix);
    let s = s.concat(from.as_str());
    let s = s.concat(" to ");
    s.concat(to.as_str())
}

/// What the first half of a mode change decided.
#[derive(Debug)]
pub enum TransitionPlan {
    /// A dry run: nothing changes, and this is the answer.
    DryRun(CommandAck),
    /// The change may go ahead once this event is journalled.
    Proceed(SystemEvent),
}

/// The mode a journal entry records as reached: a
/// `mode_transition_completed` entry whose event is a completed transition.
pub open spec fn entry_target(e: DecodedEntry) -> Option<OperationMode> {
    if e.entry_type@ == "mode_transition_completed"@ {
        match e.event {
            Some(we) => match we.event {
                SystemEvent::ModeTransitionCompleted { to, .. } => Some(to),
                _ => None,
            },
            None => None,
        }
    } else {
        None
    }
}

/// The mode restored from a journal: the one reached by its latest
/// completed transition, or `current` when it records none.
pub open spec fn restored_mode(j: Seq<DecodedEntry>, current: OperationMode) -> OperationMode
    decreases j.len(),
{
    if j.len() == 0 {
        current
    } else {
        match entry_target(j.last()) {
            Some(m) => m,
            None => restored_mode(j.drop_last(), current),
        }
    }
}

/// Whether the changes in `h` form a chain from paper mode to `mode`: each
/// is an allowed change that succeeded, each starts where the one before
/// ended, and the last ends in `mode` (with no change, `mode` is paper).
pub open spec fn chain_from_paper(h: Seq<ModeTransitionRecord>, mode: OperationMode) -> bool {
    &&& (h.len() == 0 ==> mode == OperationMode::Paper)
    &&& (h.len() > 0 ==> h[0].from == OperationMode::Paper && mode == h.last().to)
    &&& forall|i: int|
        0 <= i < h.len() ==> transition_allowed(#[trigger] h[i].from, h[i].to) && h[i].success
    &&& forall|i: int| 0 < i < h.len() ==> #[trigger] h[i].from == h[i - 1].to
}

/// The modes that the entries of a journal record as reached, oldest first.
pub open spec fn targets(j: Seq<DecodedEntry>) -> Seq<OperationMode>
    decreases j.len(),
{
    if j.len() == 0 {
        Seq::empty()
    } else {
        match entry_target(j.last()) {
            Some(m) => targets(j.drop_last()).push(m),
            None => targets(j.drop_last()),
        }
    }
}

/// The mode restored from a journal is the last mode it records as
/// reached, or the current one when it records none.
pub proof fn lemma_restored_is_last_target(j: Seq<DecodedEntry>, current: OperationMode)
    ensures
        restored_mode(j, current) == (if targets(j).len() > 0 {
            targets(j).last()
        } else {
            current
        }),
    decreases j.len(),
{
    if j.len() > 0 {
        lemma_restored_is_last_target(j.drop_last(), current);
    }
}

/// Each change made by `commit_transition` extends the chain of changes:
/// what a controller records, from its creation on, is a chain of allowed
/// changes from paper mode to its current mode.
pub proof fn law_commit_extends_chain(
    h: Seq<ModeTransitionRecord>,
    mode: OperationMode,
    rec: ModeTransitionRecord,
)
    requires
        chain_from_paper(h, mode),
        rec.from == mode,
        transition_allowed(mode, rec.to),
        rec.success,
    ensures
        chain_from_paper(h.push(rec), rec.to),
{
    let g = h.push(rec);
    assert forall|i: int| 0 < i < g.len() implies #[trigger] g[i].from == g[i - 1].to by {
        if i == h.len() {
            assert(g[i - 1] == h.last());
        } else {
            assert(g[i] == h[i]);
            assert(g[i - 1] == h[i - 1]);
        }
    }
    assert forall|i: int| 0 <= i < g.len() implies transition_allowed(#[trigger] g[i].from, g[i].to)
        && g[i].success by {
        if i < h.len() {
            assert(g[i] == h[i]);
        }
    }
}

/// Restoring a fresh controller from the journal of a controller's whole
/// history gives that controller's mode: when the journal records, in
/// order, the modes its changes reached, the mode restored from paper mode
/// is the mode the changes ended in.
pub proof fn law_restore_after_history(
    j: Seq<DecodedEntry>,
    h: Seq<ModeTransitionRecord>,
    mode: OperationMode,
)
    requires
        chain_from_paper(h, mode),
        targets(j) == h.map_values(|r: ModeTransitionRecord| r.to),
    ensures
        restored_mode(j, OperationMode::Paper) == mode,
{
    lemma_restored_is_last_target(j, OperationMode::Paper);
    if h.len() > 0 {
        assert(targets(j).last() == h.last().to);
    }
}

/// Journalling the completed change that `commit_transition` made adds
/// its target to the modes the journal records as reached.
pub proof fn law_commit_entry_extends_targets(
    j: Seq<DecodedEntry>,
    e: DecodedEntry,
    target: OperationMode,
)
    requires
        e.entry_type@ == kind_name(JournalKind::ModeTransitionCompleted),
        e.event matches Some(we) && (we.event matches SystemEvent::ModeTransitionCompleted { to, .. }
            && to == target),
    ensures
        targets(j.push(e)) == targets(j).push(target),
{
    assert(j.push(e).drop_last() =~= j);
}

/// The current operation mode and the record of changes to it.
pub struct ModeController {
    current_mode: OperationMode,
    history: Vec<ModeTransitionRecord>,
    /// Whether every change of mode so far was recorded (no restore changed
    /// the mode behind the record's back).
    follows_history: Ghost<bool>,
}

impl ModeController {
    /// While every change of mode was recorded, the record is a chain of
    /// allowed changes from paper mode that ends in the current mode.
    #[verifier::type_invariant]
    spec fn record_is_chain(self) -> bool {
        self.follows_history@ ==> chain_from_paper(self.history@, self.current_mode)
    }

    /// Whether every change of mode so far was made by `commit_transition`:
    /// true of a new controller, kept by each commit, and lost only when
    /// `restore_from_journal` changes the mode.
    pub closed spec fn follows_history(&self) -> bool {
        self.follows_history@ && chain_from_paper(self.history@, self.current_mode)
    }

    /// The current mode.
    pub closed spec fn mode(&self) -> OperationMode {
        self.current_mode
    }

    /// The changes made so far, oldest first.
    pub closed spec fn records(&self) -> Seq<ModeTransitionRecord> {
        self.history@
    }

    /// The system starts in paper mode with no history.
    pub fn new() -> (r: Self)
        ensures
            r.mode() == OperationMode::Paper,
            r.records().len() == 0,
            r.follows_history(),
            chain_from_paper(r.records(), r.mode()),
    {
        ModeController {
            current_mode: OperationMode::Paper,
            history: Vec::new(),
            follows_history: Ghost(true),
        }
    }

    /// The current mode; while every change was recorded, it is where the
    /// chain of recorded changes from paper mode ends.
    pub fn current_mode(&self) -> (m: OperationMode)
        ensures
            m == self.mode(),
            self.follows_history() ==> chain_from_paper(self.records(), m),
    {
        proof {
            use_type_invariant(self);
        }
        self.current_mode
    }

    /// The changes made so far, oldest first; while every change was
    /// recorded, they form a chain of allowed changes from paper mode to the
    /// current mode.
    pub fn history(&self) -> (h: &Vec<ModeTransitionRecord>)
        ensures
            h@ == self.records(),
            self.follows_history() ==> chain_from_paper(h@, self.mode()),
    {
        proof {
            use_type_invariant(self);
        }
        &self.history
    }

    /// Decides a change to `target`. A change the transition table does not
    /// allow is refused with `InvalidModeTransition` naming both modes; a
    /// dry run is answered without change ("Dry run: would transition from
    /// <from> to <to>"); otherwise the `ModeTransitionStarted` event is
    /// returned, for the caller to journal before `commit_transition`.
    pub fn plan_transition(&self, target: OperationMode, dry_run: bool) -> (r: Result<
        TransitionPlan,
        OrchestratorError,
    >)
        ensures
            !transition_allowed(self.mode(), target) ==> (r matches Err(
                OrchestratorError::InvalidModeTransition { from, to },
            ) && from@ == mode_name(self.mode()) && to@ == mode_name(target)),
            transition_allowed(self.mode(), target) && dry_run ==> (r matches Ok(
                TransitionPlan::DryRun(ack),
            ) && ack.accepted && ack.saga_id is None && ack.message@ == from_to_message(
                "Dry run: would transition from "@,
                self.mode(),
                target,
            )),
            transition_allowed(self.mode(), target) && !dry_run ==> (r matches Ok(
                TransitionPlan::Proceed(SystemEvent::ModeTransitionStarted { from, to }),
            ) && from == self.mode() && to == target),
    {
        let current = self.current_mode;
        if !current.can_transition_to(&target) {
            return Err(
                OrchestratorError::InvalidModeTransition {
                    from: String::from_str(current.as_str()),
                    to: String::from_str(target.as_str()),
                },
            );
        }
        if dry_run {
            let msg = from_to_text("Dry run: would transition from ", current, target);
            return Ok(TransitionPlan::DryRun(CommandAck::accepted(msg)));
        }
        Ok(TransitionPlan::Proceed(SystemEvent::ModeTransitionStarted { from: current, to: target }))
    }

    /// Carries out a planned change to `target`: the mode becomes `target`,
    /// the change is recorded (now, by `actor`, for `reason`, as a success),
    /// and the `ModeTransitionCompleted` event to journal and publish is
    /// returned with the answer "Mode transitioned from <from> to <to>".
    pub fn commit_transition(&mut self, target: OperationMode, reason: &str, actor: &str) -> (r: (
        SystemEvent,
        CommandAck,
    ))
        requires
            transition_allowed(old(self).mode(), target),
        ensures
            final(self).mode() == target,
            final(self).records().len() == old(self).records().len() + 1,
            final(self).records().drop_last() == old(self).records(),
            final(self).records().last().from == old(self).mode(),
            final(self).records().last().to == target,
            final(self).records().last().actor@ == actor@,
            final(self).records().last().reason@ == reason@,
            final(self).records().last().success,
            r.0 matches SystemEvent::ModeTransitionCompleted { from, to } && from == old(self).mode()
                && to == target,
            r.1.accepted && r.1.saga_id is None,
            r.1.message@ == from_to_message("Mode transitioned from "@, old(self).mode(), target),
            chain_from_paper(old(self).records(), old(self).mode()) ==> chain_from_paper(
                final(self).records(),
                final(self).mode(),
            ),
            final(self).follows_history() == old(self).follows_history(),
            final(self).follows_history() ==> chain_from_paper(
                final(self).records(),
                final(self).mode(),
            ),
    {
        proof {
            use_type_invariant(&*self);
        }
        let ghost follows = self.follows_history@;
        self.follows_history = Ghost(false);
        let current = self.current_mode;
        self.current_mode = target;
        let record = ModeTransitionRecord {
            from: current,
            to: target,
            timestamp_ns: now_nanos(),
            actor: String::from_str(actor),
            reason: String::from_str(reason),
            success: true,
        };
        let ghost before = self.history@;
        let mut history: Vec<ModeTransitionRecord> = Vec::new();
        std::mem::swap(&mut history, &mut self.history);
        history.push(record);
        self.history = history;
        proof {
            assert(self.history@.drop_last() =~= before);
            if chain_from_paper(before, current) {
                law_commit_extends_chain(before, current, record);
            }
        }
        self.follows_history = Ghost(follows);
        let msg = from_to_text("Mode transitioned from ", current, target);
        (SystemEvent::ModeTransitionCompleted { from: current, to: target }, CommandAck::accepted(msg))
    }

    /// Restores the mode from the journal: the latest completed transition
    /// it records decides; with none, the mode is kept. The record of
    /// changes is kept as it was.
    pub fn restore_from_journal(&mut self, entries: &Vec<DecodedEntry>)
        ensures
            final(self).mode() == restored_mode(entries@, old(self).mode()),
            targets(entries@).len() > 0 ==> final(self).mode() == targets(entries@).last(),
            targets(entries@).len() == 0 ==> final(self).mode() == old(self).mode(),
            final(self).records() == old(self).records(),
            final(self).follows_history() == (old(self).follows_history() && final(self).mode()
                == old(self).mode()),
    {
        proof {
            use_type_invariant(&*self);
            lemma_restored_is_last_target(entries@, self.current_mode);
        }
        let m = latest_target(entries, self.current_mode);
        let keep = m == self.current_mode;
        let ghost f = self.follows_history@ && keep;
        self.follows_history = Ghost(f);
        self.current_mode = m;
    }
}

/// The mode the latest completed transition in `entries` reached, or
/// `current` when there is none.
fn latest_target(entries: &Vec<DecodedEntry>, current: OperationMode) -> (m: OperationMode)
    ensures
        m == restored_mode(entries@, current),
{
    let mut i = entries.len();
    proof {
        assert(entries@.take(i as int) =~= entries@);
    }
    while i > 0
        invariant
            i <= entries@.len(),
            restored_mode(entries@, current) == restored_mode(entries@.take(i as int), current),
        decreases i,
    {
        let e = &entries[i - 1];
        proof {
            assert(entries@.take(i as int).last() == entries@[i - 1]);
            assert(entries@.take(i as int).drop_last() =~= entries@.take(i - 1));
        }
        if str_equal(e.entry_type.as_str(), "mode_transition_completed") {
            match &e.event {
                Some(we) => match &we.event {
                    SystemEvent::ModeTransitionCompleted { to, .. } => {
                        return *to;
                    },
                    _ => {},
                },
                None => {},
            }
        }
        i = i - 1;
    }
    proof {
        assert(entries@.take(0) =~= Seq::<DecodedEntry>::empty());
    }
    current
}

/// The mode restored from a journal is the target of the latest completed
/// transition it records: restoring after a change gives the mode changed to.
pub proof fn law_restore_reads_latest_transition(
    j: Seq<DecodedEntry>,
    current: OperationMode,
    e: DecodedEntry,
)
    ensures
        entry_target(e) matches Some(m) ==> restored_mode(j.push(e), current) == m,
        entry_target(e) is None ==> restored_mode(j.push(e), current) == restored_mode(j, current),
{
    assert(j.push(e).drop_last() =~= j);
}

/// The entry that journals a completed change to `target` (as written after
/// `commit_transition`) makes the restored mode `target`.
pub proof fn law_restore_after_commit(
    j: Seq<DecodedEntry>,
    current: OperationMode,
    e: DecodedEntry,
    target: OperationMode,
)
    requires
        e.entry_type@ == kind_name(JournalKind::ModeTransitionCompleted),
        e.event matches Some(we) && (we.event matches SystemEvent::ModeTransitionCompleted { to, .. }
            && to == target),
    ensures
        restored_mode(j.push(e), current) == target,
{
    assert(j.push(e).drop_last() =~= j);
}

/// A controller whose every change of mode was made by
/// `commit_transition`, from `new` on, is rebuilt from its journal: when
/// the journal records, in order, the modes those changes reached,
/// restoring a fresh controller (in paper mode) from it gives this
/// controller's mode.
pub proof fn law_journal_rebuilds_controller(c: ModeController, j: Seq<DecodedEntry>)
    requires
        c.follows_history(),
        targets(j) == c.records().map_values(|r: ModeTransitionRecord| r.to),
    ensures
        restored_mode(j, OperationMode::Paper) == c.mode(),
{
    law_restore_after_history(j, c.records(), c.mode());
}

} // verus!
