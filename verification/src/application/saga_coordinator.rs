use vstd::prelude::*;
use vstd::string::*;
use crate::domain::errors::{OrchestratorError, concat_str};
use crate::domain::events::{SystemEvent, WorkflowEvent};
use crate::domain::saga::{
    SagaDefinition, SagaInstance, SagaInstanceState, SagaInstanceSummary, SagaInstanceView,
};
use crate::keyed::{
    KeyedVec, has_key, key_pos, keys_unique, lemma_key_pos_unique, lemma_lookup_insert,
    lemma_view_values, lemma_view_values_insert, lookup, seq_insert, view_values,
};

verus! {

broadcast use crate::keyed::lemma_view_values_keys_unique;

/// How many of the latest journal entries are replayed to restore the runs.
pub const RESTORE_WINDOW: usize = 10000;

/// Whether `i` is the first definition in `defs` of type `t`.
pub open spec fn is_first_of_type(defs: Seq<(Seq<char>, SagaDefinition)>, t: Seq<char>, i: int) -> bool {
    &&& 0 <= i < defs.len()
    &&& defs[i].1.saga_type@ == t
    &&& forall|j: int| 0 <= j < i ==> #[trigger] defs[j].1.saga_type@ != t
}

/// The first registered definition of saga type `t`.
pub open spec fn first_def_of_type(defs: Seq<(Seq<char>, SagaDefinition)>, t: Seq<char>) -> Option<
    SagaDefinition,
> {
    if exists|i: int| is_first_of_type(defs, t, i) {
        Some(defs[choose|i: int| is_first_of_type(defs, t, i)].1)
    } else {
        None
    }
}

/// The number of steps of the first definition of type `t`, or 0.
pub open spec fn total_steps_of(defs: Seq<(Seq<char>, SagaDefinition)>, t: Seq<char>) -> int {
    match first_def_of_type(defs, t) {
        Some(d) => d.steps@.len() as int,
        None => 0,
    }
}

/// Whether `e` is a saga failure with message `msg`.
pub open spec fn is_saga_failed(e: OrchestratorError, msg: Seq<char>) -> bool {
    e matches OrchestratorError::SagaFailed(m) && m@ == msg
}

/// The saga runs after one journalled event is replayed.
pub open spec fn replay_event(m: Seq<(Seq<char>, SagaInstanceView)>, e: WorkflowEvent) -> Seq<
    (Seq<char>, SagaInstanceView),
> {
    match e.event {
        SystemEvent::SagaStarted { saga_id, saga_type } => seq_insert(
            m,
            saga_id@,
            SagaInstanceView {
                instance_id: saga_id@,
                saga_type: saga_type@,
                current_step: 0,
                state: SagaInstanceState::Running,
                completed_steps: Seq::empty(),
                started_at_ns: e.timestamp_ns,
                updated_at_ns: e.timestamp_ns,
            },
        ),
        SystemEvent::SagaStepCompleted { saga_id, step_index } => match lookup(m, saga_id@) {
            Some(inst) => seq_insert(
                m,
                saga_id@,
                SagaInstanceView {
                    completed_steps: inst.completed_steps.push(inst.current_step),
                    current_step: step_index,
                    updated_at_ns: e.timestamp_ns,
                    ..inst
                },
            ),
            None => m,
        },
        SystemEvent::SagaCompensated { saga_id, .. } => match lookup(m, saga_id@) {
            Some(inst) => seq_insert(
                m,
                saga_id@,
                SagaInstanceView {
                    state: SagaInstanceState::Compensating,
                    updated_at_ns: e.timestamp_ns,
                    ..inst
                },
            ),
            None => m,
        },
        SystemEvent::SagaCompleted { saga_id } => match lookup(m, saga_id@) {
            Some(inst) => seq_insert(
                m,
                saga_id@,
                SagaInstanceView {
                    state: SagaInstanceState::Completed,
                    updated_at_ns: e.timestamp_ns,
                    ..inst
                },
            ),
            None => m,
        },
        _ => m,
    }
}

/// The saga runs that a journal describes, replayed oldest event first.
pub open spec fn replay(events: Seq<WorkflowEvent>) -> Seq<(Seq<char>, SagaInstanceView)>
    decreases events.len(),
{
    if events.len() == 0 {
        Seq::empty()
    } else {
        replay_event(replay(events.drop_last()), events.last())
    }
}

/// `base` with every entry of `add` stored into it, in order.
pub open spec fn merge_into(
    base: Seq<(Seq<char>, SagaInstanceView)>,
    add: Seq<(Seq<char>, SagaInstanceView)>,
) -> Seq<(Seq<char>, SagaInstanceView)>
    decreases add.len(),
{
    if add.len() == 0 {
        base
    } else {
        seq_insert(merge_into(base, add.drop_last()), add.last().0, add.last().1)
    }
}

/// Replaying what `advance_saga` journals moves a run as the live call
/// moved it: a `SagaStepCompleted` naming the next step records the
/// current step as completed and makes the named step current, and a
/// `SagaCompleted` marks the run completed.
pub proof fn law_replay_follows_advance(
    m: Seq<(Seq<char>, SagaInstanceView)>,
    id: Seq<char>,
    e: WorkflowEvent,
)
    requires
        keys_unique(m),
        has_key(m, id),
    ensures
        ({
            let inst = m[key_pos(m, id)].1;
            &&& (e.event matches SystemEvent::SagaStepCompleted { saga_id, step_index } && saga_id@
                == id && step_index == inst.current_step + 1) ==> lookup(replay_event(m, e), id)
                == Some(
                SagaInstanceView {
                    current_step: (inst.current_step + 1) as usize,
                    completed_steps: inst.completed_steps.push(inst.current_step),
                    updated_at_ns: e.timestamp_ns,
                    ..inst
                },
            )
            &&& (e.event matches SystemEvent::SagaCompleted { saga_id } && saga_id@ == id)
                ==> lookup(replay_event(m, e), id) == Some(
                SagaInstanceView {
                    state: SagaInstanceState::Completed,
                    updated_at_ns: e.timestamp_ns,
                    ..inst
                },
            )
        }),
{
    let p = key_pos(m, id);
    lemma_key_pos_unique(m, p);
    let inst = m[p].1;
    match e.event {
        SystemEvent::SagaStepCompleted { saga_id, step_index } => {
            lemma_lookup_insert(
                m,
                saga_id@,
                SagaInstanceView {
                    completed_steps: inst.completed_steps.push(inst.current_step),
                    current_step: step_index,
                    updated_at_ns: e.timestamp_ns,
                    ..inst
                },
                id,
            );
        },
        SystemEvent::SagaCompleted { saga_id } => {
            lemma_lookup_insert(
                m,
                saga_id@,
                SagaInstanceView {
                    state: SagaInstanceState::Completed,
                    updated_at_ns: e.timestamp_ns,
                    ..inst
                },
                id,
            );
        },
        _ => {},
    }
}

/// Whether `new_runs` is `old_runs` after advancing run `id`: when
/// `old_runs` holds the run and its type has a definition in `defs`, the
/// run keeps its place and moves as `advance_view` says (timestamps
/// aside) and every other run stays as it was; otherwise nothing changes.
pub open spec fn moved_by_advance(
    old_runs: Seq<(Seq<char>, SagaInstanceView)>,
    defs: Seq<(Seq<char>, SagaDefinition)>,
    new_runs: Seq<(Seq<char>, SagaInstanceView)>,
    id: Seq<char>,
) -> bool {
    match lookup(old_runs, id) {
        Some(v) => if first_def_of_type(defs, v.saga_type) is Some {
            let p = key_pos(old_runs, id);
            &&& new_runs.len() == old_runs.len()
            &&& new_runs[p].0 == id
            &&& same_progress(new_runs[p].1, advance_view(v, total_steps_of(defs, v.saga_type)))
            &&& forall|j: int|
                0 <= j < old_runs.len() && j != p ==> #[trigger] new_runs[j] == old_runs[j]
        } else {
            new_runs == old_runs
        },
        None => new_runs == old_runs,
    }
}

/// Whether `e` is what `advance_saga` journals when it advances run `id`
/// of `runs` under the definitions `defs`.
pub open spec fn journals_advance(
    runs: Seq<(Seq<char>, SagaInstanceView)>,
    defs: Seq<(Seq<char>, SagaDefinition)>,
    id: Seq<char>,
    e: SystemEvent,
) -> bool {
    match lookup(runs, id) {
        Some(v) => records_advance(e, id, v, total_steps_of(defs, v.saga_type)),
        None => true,
    }
}

/// After an advance the ids stay unique, the advanced run reads back as
/// it moved, and every other id reads back as before.
proof fn lemma_moved_reads_back(
    old_runs: Seq<(Seq<char>, SagaInstanceView)>,
    defs: Seq<(Seq<char>, SagaDefinition)>,
    new_runs: Seq<(Seq<char>, SagaInstanceView)>,
    id: Seq<char>,
)
    requires
        keys_unique(old_runs),
        moved_by_advance(old_runs, defs, new_runs, id),
    ensures
        keys_unique(new_runs),
        new_runs.len() == old_runs.len(),
        forall|j: int| 0 <= j < new_runs.len() ==> #[trigger] new_runs[j].0 == old_runs[j].0,
        lookup(old_runs, id) matches Some(v) ==> (first_def_of_type(defs, v.saga_type) is Some
            ==> (lookup(new_runs, id) matches Some(w) && same_progress(
            w,
            advance_view(v, total_steps_of(defs, v.saga_type)),
        ))),
{
    if let Some(v) = lookup(old_runs, id) {
        if first_def_of_type(defs, v.saga_type) is Some {
            let p = key_pos(old_runs, id);
            assert forall|j: int| 0 <= j < new_runs.len() implies #[trigger] new_runs[j].0
                == old_runs[j].0 by {
                if j != p {
                    assert(new_runs[j] == old_runs[j]);
                }
            }
            assert(keys_unique(new_runs)) by {
                assert forall|i: int, j: int|
                    0 <= i < new_runs.len() && 0 <= j < new_runs.len() && i != j implies #[trigger] new_runs[i].0
                    != #[trigger] new_runs[j].0 by {
                    assert(new_runs[i].0 == old_runs[i].0);
                    assert(new_runs[j].0 == old_runs[j].0);
                }
            }
            lemma_key_pos_unique(new_runs, p);
        }
    }
}

/// Replacing the run at `p` keeps the ids unique, and the run then reads
/// back under its id.
proof fn lemma_replaced_run_reads_back(
    m: Seq<(Seq<char>, SagaInstanceView)>,
    p: int,
    v: SagaInstanceView,
)
    requires
        keys_unique(m),
        0 <= p < m.len(),
    ensures
        lookup(m, m[p].0) == Some(m[p].1),
        lookup(m.update(p, (m[p].0, v)), m[p].0) == Some(v),
{
    lemma_key_pos_unique(m, p);
    let u = m.update(p, (m[p].0, v));
    assert(keys_unique(u)) by {
        assert forall|i: int, j: int| 0 <= i < u.len() && 0 <= j < u.len() && i != j implies #[trigger] u[i].0
            != #[trigger] u[j].0 by {
            assert(u[i].0 == m[i].0);
            assert(u[j].0 == m[j].0);
        }
    }
    lemma_key_pos_unique(u, p);
}

/// How a run moves when it is advanced, for a definition of `total` steps:
/// past its last step it is marked completed; otherwise its current step is
/// recorded as completed and the next one becomes current.
pub open spec fn advance_view(v: SagaInstanceView, total: int) -> SagaInstanceView {
    if v.current_step >= total {
        SagaInstanceView { state: SagaInstanceState::Completed, ..v }
    } else {
        SagaInstanceView {
            current_step: (v.current_step + 1) as usize,
            completed_steps: v.completed_steps.push(v.current_step),
            ..v
        }
    }
}

/// The run `v` after `k` advances.
pub open spec fn advanced(v: SagaInstanceView, total: int, k: nat) -> SagaInstanceView
    decreases k,
{
    if k == 0 {
        v
    } else {
        advance_view(advanced(v, total, (k - 1) as nat), total)
    }
}

/// Whether two runs agree on everything but their timestamps.
pub open spec fn same_progress(a: SagaInstanceView, b: SagaInstanceView) -> bool {
    &&& a.instance_id == b.instance_id
    &&& a.saga_type == b.saga_type
    &&& a.current_step == b.current_step
    &&& a.completed_steps == b.completed_steps
    &&& a.state == b.state
}

/// A run of type `t` under id `id`, just opened.
pub open spec fn opened_view(id: Seq<char>, t: Seq<char>) -> SagaInstanceView {
    SagaInstanceView {
        instance_id: id,
        saga_type: t,
        current_step: 0,
        state: SagaInstanceState::Running,
        completed_steps: Seq::empty(),
        started_at_ns: 0,
        updated_at_ns: 0,
    }
}

/// Whether `e` journals the opening of run `id` of type `t`.
pub open spec fn records_start(e: SystemEvent, id: Seq<char>, t: Seq<char>) -> bool {
    e matches SystemEvent::SagaStarted { saga_id, saga_type } && saga_id@ == id && saga_type@ == t
}

/// Whether `e` is what `advance_saga` journals when it advances run `v`,
/// stored under `id`, of a definition with `total` steps.
pub open spec fn records_advance(e: SystemEvent, id: Seq<char>, v: SagaInstanceView, total: int) -> bool {
    if v.current_step >= total {
        e matches SystemEvent::SagaCompleted { saga_id } && saga_id@ == id
    } else {
        e matches SystemEvent::SagaStepCompleted { saga_id, step_index } && saga_id@ == id
            && step_index == v.current_step + 1
    }
}

/// Whether run `v` of a definition with `total` steps is as starting and
/// advancing leave it: steps `0` to `current_step - 1` completed, in order,
/// no further than the last step, running or completed, and completed only
/// past its last step.
pub open spec fn well_progressed(v: SagaInstanceView, total: int) -> bool {
    &&& v.current_step <= total
    &&& v.completed_steps.len() == v.current_step
    &&& forall|i: int| 0 <= i < v.completed_steps.len() ==> #[trigger] v.completed_steps[i] == i
    &&& (v.state == SagaInstanceState::Running || v.state == SagaInstanceState::Completed)
    &&& (v.state == SagaInstanceState::Completed ==> v.current_step == total)
}

/// A run that was just opened is well progressed, and advancing keeps it
/// so: runs driven only by `start_saga` and `advance_saga` always are.
pub proof fn law_advance_keeps_runs_well_progressed(v: SagaInstanceView, total: int)
    requires
        0 <= total <= usize::MAX,
    ensures
        (v.current_step == 0 && v.state == SagaInstanceState::Running && v.completed_steps.len()
            == 0) ==> well_progressed(v, total),
        well_progressed(v, total) ==> well_progressed(advance_view(v, total), total),
{
    if well_progressed(v, total) {
        let w = advance_view(v, total);
        if v.current_step < total {
            assert forall|i: int| 0 <= i < w.completed_steps.len() implies #[trigger] w.completed_steps[i]
                == i by {
                if i < v.completed_steps.len() {
                    assert(w.completed_steps[i] == v.completed_steps[i]);
                }
            }
        }
        assert(well_progressed(w, total));
    }
}

/// One step of the replay of a single run's journal.
proof fn lemma_replay_one_run_step(
    m: Seq<(Seq<char>, SagaInstanceView)>,
    w: SagaInstanceView,
    u: SagaInstanceView,
    e: WorkflowEvent,
    total: int,
)
    requires
        m == seq![(u.instance_id, w)],
        same_progress(w, u),
        records_advance(e.event, u.instance_id, u, total),
    ensures
        replay_event(m, e).len() == 1,
        replay_event(m, e)[0].0 == u.instance_id,
        same_progress(replay_event(m, e)[0].1, advance_view(u, total)),
{
    let id = u.instance_id;
    assert(keys_unique(m));
    lemma_key_pos_unique(m, 0);
    assert(has_key(m, id));
    assert(key_pos(m, id) == 0);
}

/// Replaying the journal of a run that was opened and then advanced `k`
/// times (nothing else journalled) restores it as the live run stands:
/// the same id, type, current step, completed steps and state.
pub proof fn law_replay_after_history(
    events: Seq<WorkflowEvent>,
    id: Seq<char>,
    t: Seq<char>,
    total: int,
    k: nat,
)
    requires
        events.len() == k + 1,
        records_start(events[0].event, id, t),
        forall|i: int|
            1 <= i <= k ==> records_advance(
                #[trigger] events[i].event,
                id,
                advanced(opened_view(id, t), total, (i - 1) as nat),
                total,
            ),
    ensures
        replay(events).len() == 1,
        replay(events)[0].0 == id,
        same_progress(replay(events)[0].1, advanced(opened_view(id, t), total, k)),
{
    lemma_replay_prefix(events, id, t, total, k + 1);
    assert(events.take((k + 1) as int) =~= events);
}

proof fn lemma_advanced_keeps_id(v: SagaInstanceView, total: int, k: nat)
    ensures
        advanced(v, total, k).instance_id == v.instance_id,
        advanced(v, total, k).saga_type == v.saga_type,
    decreases k,
{
    if k > 0 {
        lemma_advanced_keeps_id(v, total, (k - 1) as nat);
    }
}

proof fn lemma_replay_prefix(events: Seq<WorkflowEvent>, id: Seq<char>, t: Seq<char>, total: int, n: nat)
    requires
        1 <= n <= events.len(),
        records_start(events[0].event, id, t),
        forall|i: int|
            1 <= i < events.len() ==> records_advance(
                #[trigger] events[i].event,
                id,
                advanced(opened_view(id, t), total, (i - 1) as nat),
                total,
            ),
    ensures
        replay(events.take(n as int)).len() == 1,
        replay(events.take(n as int))[0].0 == id,
        same_progress(
            replay(events.take(n as int))[0].1,
            advanced(opened_view(id, t), total, (n - 1) as nat),
        ),
    decreases n,
{
    let p = events.take(n as int);
    assert(p.drop_last() =~= events.take(n - 1));
    assert(p.last() == events[n - 1]);
    if n == 1 {
        assert(events.take(0) =~= Seq::<WorkflowEvent>::empty());
        let e = events[0];
        let empty = Seq::<(Seq<char>, SagaInstanceView)>::empty();
        assert(!has_key(empty, id));
        assert(replay(p) == replay_event(empty, e));
    } else {
        lemma_replay_prefix(events, id, t, total, (n - 1) as nat);
        let m = replay(events.take(n - 1));
        let u = advanced(opened_view(id, t), total, (n - 2) as nat);
        lemma_advanced_keeps_id(opened_view(id, t), total, (n - 2) as nat);
        assert(m =~= seq![(u.instance_id, m[0].1)]);
        lemma_replay_one_run_step(m, m[0].1, u, events[n - 1], total);
    }
}

/// Advancing two runs that agree on their progress leaves them agreeing,
/// and the same event journals either advance.
proof fn lemma_advance_same_progress(
    a: SagaInstanceView,
    b: SagaInstanceView,
    total: int,
    id: Seq<char>,
)
    requires
        same_progress(a, b),
    ensures
        same_progress(advance_view(a, total), advance_view(b, total)),
        forall|e: SystemEvent|
            #[trigger] records_advance(e, id, a, total) == records_advance(e, id, b, total),
{
}

/// The run `id` through a live history: opened of type `t`, then advanced
/// at each step, it stands after `n` steps as `n` advances leave it.
proof fn lemma_live_prefix(
    defs: Seq<(Seq<char>, SagaDefinition)>,
    states: Seq<Seq<(Seq<char>, SagaInstanceView)>>,
    id: Seq<char>,
    t: Seq<char>,
    n: nat,
)
    requires
        n < states.len(),
        keys_unique(states[0]),
        first_def_of_type(defs, t) is Some,
        lookup(states[0], id) matches Some(v0) && same_progress(v0, opened_view(id, t)),
        forall|i: int|
            #![trigger states[i]]
            0 <= i < states.len() - 1 ==> moved_by_advance(states[i], defs, states[i + 1], id),
    ensures
        keys_unique(states[n as int]),
        lookup(states[n as int], id) matches Some(v) && same_progress(
            v,
            advanced(opened_view(id, t), total_steps_of(defs, t), n),
        ),
    decreases n,
{
    if n > 0 {
        let prev = (n - 1) as int;
        lemma_live_prefix(defs, states, id, t, (n - 1) as nat);
        let total = total_steps_of(defs, t);
        let u = advanced(opened_view(id, t), total, (n - 1) as nat);
        lemma_advanced_keeps_id(opened_view(id, t), total, (n - 1) as nat);
        let v = lookup(states[prev], id)->0;
        assert(moved_by_advance(states[prev], defs, states[prev + 1], id));
        lemma_moved_reads_back(states[prev], defs, states[prev + 1], id);
        lemma_advance_same_progress(v, u, total, id);
    }
}

/// A run opened by `start_saga`, stored by `insert_instance` and then
/// advanced `k` times by `advance_saga`, with nothing else done to it, is
/// restored by replaying what those calls journalled: the run that the
/// replay gives agrees with the live run on id, type, current step,
/// completed steps and state. `states` are the runs after the insert and
/// after each advance; `events` is the journal: the start, then the event
/// of each advance.
pub proof fn law_live_run_matches_replay(
    defs: Seq<(Seq<char>, SagaDefinition)>,
    states: Seq<Seq<(Seq<char>, SagaInstanceView)>>,
    events: Seq<WorkflowEvent>,
    id: Seq<char>,
    t: Seq<char>,
    k: nat,
)
    requires
        states.len() == k + 1,
        events.len() == k + 1,
        keys_unique(states[0]),
        first_def_of_type(defs, t) is Some,
        lookup(states[0], id) matches Some(v0) && same_progress(v0, opened_view(id, t)),
        records_start(events[0].event, id, t),
        forall|i: int|
            #![trigger states[i]]
            0 <= i < k ==> moved_by_advance(states[i], defs, states[i + 1], id),
        forall|i: int|
            #![trigger events[i]]
            1 <= i <= k ==> journals_advance(states[i - 1], defs, id, events[i].event),
    ensures
        lookup(states[k as int], id) matches Some(v) && replay(events).len() == 1 && replay(events)[0].0
            == id && same_progress(replay(events)[0].1, v),
{
    let total = total_steps_of(defs, t);
    assert forall|i: int| 1 <= i <= k implies records_advance(
        #[trigger] events[i].event,
        id,
        advanced(opened_view(id, t), total, (i - 1) as nat),
        total,
    ) by {
        lemma_live_prefix(defs, states, id, t, (i - 1) as nat);
        lemma_advanced_keeps_id(opened_view(id, t), total, (i - 1) as nat);
        let v = lookup(states[i - 1], id)->0;
        assert(journals_advance(states[i - 1], defs, id, events[i].event));
        lemma_advance_same_progress(
            v,
            advanced(opened_view(id, t), total, (i - 1) as nat),
            total,
            id,
        );
    }
    law_replay_after_history(events, id, t, total, k);
    lemma_live_prefix(defs, states, id, t, k);
}

/// Whether every run of `runs` whose type has a definition in `defs` is
/// well progressed for that definition.
pub open spec fn runs_well_progressed(
    runs: Seq<(Seq<char>, SagaInstanceView)>,
    defs: Seq<(Seq<char>, SagaDefinition)>,
) -> bool {
    forall|i: int|
        #![trigger runs[i]]
        0 <= i < runs.len() ==> (first_def_of_type(defs, runs[i].1.saga_type) is Some
            ==> well_progressed(runs[i].1, total_steps_of(defs, runs[i].1.saga_type)))
}

/// Whether `new_runs` is `old_runs` with `v`, a run just opened by
/// `start_saga`, stored by `insert_instance`.
pub open spec fn stores_opened_run(
    old_runs: Seq<(Seq<char>, SagaInstanceView)>,
    new_runs: Seq<(Seq<char>, SagaInstanceView)>,
    v: SagaInstanceView,
) -> bool {
    &&& new_runs == seq_insert(old_runs, v.instance_id, v)
    &&& v.current_step == 0
    &&& v.state == SagaInstanceState::Running
    &&& v.completed_steps.len() == 0
}

/// Whether one start (`start_saga`, then `insert_instance`) or one
/// `advance_saga` takes `old_runs` to `new_runs` under the definitions
/// `defs`.
pub open spec fn started_or_advanced(
    old_runs: Seq<(Seq<char>, SagaInstanceView)>,
    defs: Seq<(Seq<char>, SagaDefinition)>,
    new_runs: Seq<(Seq<char>, SagaInstanceView)>,
) -> bool {
    ||| exists|v: SagaInstanceView| #[trigger] stores_opened_run(old_runs, new_runs, v)
    ||| exists|id: Seq<char>| #[trigger] moved_by_advance(old_runs, defs, new_runs, id)
}

/// A run with the progress of a well-progressed run is well progressed.
proof fn lemma_same_progress_well_progressed(a: SagaInstanceView, b: SagaInstanceView, total: int)
    requires
        same_progress(a, b),
        well_progressed(b, total),
    ensures
        well_progressed(a, total),
{
}

/// One start or advance keeps the ids unique and every run well progressed.
proof fn lemma_step_keeps_well_progressed(
    old_runs: Seq<(Seq<char>, SagaInstanceView)>,
    defs: Seq<(Seq<char>, SagaDefinition)>,
    new_runs: Seq<(Seq<char>, SagaInstanceView)>,
)
    requires
        keys_unique(old_runs),
        runs_well_progressed(old_runs, defs),
        started_or_advanced(old_runs, defs, new_runs),
    ensures
        keys_unique(new_runs),
        runs_well_progressed(new_runs, defs),
{
    if exists|v: SagaInstanceView| #[trigger] stores_opened_run(old_runs, new_runs, v) {
        let v = choose|v: SagaInstanceView| #[trigger] stores_opened_run(old_runs, new_runs, v);
        let id = v.instance_id;
        lemma_lookup_insert(old_runs, id, v, id);
        if let Some(d) = first_def_of_type(defs, v.saga_type) {
            assert(d.steps.len() == d.steps@.len());
            law_advance_keeps_runs_well_progressed(v, total_steps_of(defs, v.saga_type));
        }
        assert forall|i: int| 0 <= i < new_runs.len() implies (first_def_of_type(
            defs,
            #[trigger] new_runs[i].1.saga_type,
        ) is Some ==> well_progressed(new_runs[i].1, total_steps_of(defs, new_runs[i].1.saga_type))) by {
            if has_key(old_runs, id) {
                if i != key_pos(old_runs, id) {
                    assert(new_runs[i] == old_runs[i]);
                }
            } else if i < old_runs.len() {
                assert(new_runs[i] == old_runs[i]);
            }
        }
    } else {
        let id = choose|id: Seq<char>| #[trigger] moved_by_advance(old_runs, defs, new_runs, id);
        lemma_moved_reads_back(old_runs, defs, new_runs, id);
        if let Some(v) = lookup(old_runs, id) {
            if let Some(d) = first_def_of_type(defs, v.saga_type) {
                let p = key_pos(old_runs, id);
                let total = total_steps_of(defs, v.saga_type);
                assert(d.steps.len() == d.steps@.len());
                assert(old_runs[p].1 == v);
                law_advance_keeps_runs_well_progressed(v, total);
                lemma_same_progress_well_progressed(new_runs[p].1, advance_view(v, total), total);
                assert forall|i: int| 0 <= i < new_runs.len() implies (first_def_of_type(
                    defs,
                    #[trigger] new_runs[i].1.saga_type,
                ) is Some ==> well_progressed(
                    new_runs[i].1,
                    total_steps_of(defs, new_runs[i].1.saga_type),
                )) by {
                    if i != p {
                        assert(new_runs[i] == old_runs[i]);
                    }
                }
            }
        }
    }
}

proof fn lemma_well_progressed_prefix(
    defs: Seq<(Seq<char>, SagaDefinition)>,
    states: Seq<Seq<(Seq<char>, SagaInstanceView)>>,
    n: nat,
)
    requires
        n < states.len(),
        keys_unique(states[0]),
        runs_well_progressed(states[0], defs),
        forall|i: int|
            #![trigger states[i]]
            0 <= i < states.len() - 1 ==> started_or_advanced(states[i], defs, states[i + 1]),
    ensures
        keys_unique(states[n as int]),
        runs_well_progressed(states[n as int], defs),
    decreases n,
{
    if n > 0 {
        let prev = (n - 1) as int;
        lemma_well_progressed_prefix(defs, states, (n - 1) as nat);
        assert(started_or_advanced(states[prev], defs, states[prev + 1]));
        lemma_step_keeps_well_progressed(states[prev], defs, states[prev + 1]);
    }
}

/// Runs driven only by starts (`start_saga`, then `insert_instance`) and
/// by `advance_saga`, while the definitions stay as they are, stay well
/// progressed: each run whose definition has `n` steps has completed steps
/// `0` to `current_step - 1` in order, stands at most at step `n`, is
/// running or completed, and is completed only at step `n`. `states` are
/// the runs before the first call and after each call.
pub proof fn law_runs_stay_well_progressed(
    defs: Seq<(Seq<char>, SagaDefinition)>,
    states: Seq<Seq<(Seq<char>, SagaInstanceView)>>,
)
    requires
        states.len() >= 1,
        keys_unique(states[0]),
        runs_well_progressed(states[0], defs),
        forall|i: int|
            #![trigger states[i]]
            0 <= i < states.len() - 1 ==> started_or_advanced(states[i], defs, states[i + 1]),
    ensures
        forall|i: int|
            #![trigger states[i]]
            0 <= i < states.len() ==> keys_unique(states[i]) && runs_well_progressed(states[i], defs),
{
    assert forall|i: int| #![trigger states[i]] 0 <= i < states.len() implies keys_unique(states[i])
        && runs_well_progressed(states[i], defs) by {
        lemma_well_progressed_prefix(defs, states, i as nat);
    }
}

/// The saga definitions and the runs of them, keyed by definition id and by
/// run id. Journalling is the caller's: each operation says which event
/// records it.
pub struct SagaCoordinator {
    definitions: KeyedVec<SagaDefinition>,
    instances: KeyedVec<SagaInstance>,
}

impl SagaCoordinator {
    /// The registered definitions, keyed by id, in registration order.
    pub closed spec fn defs(&self) -> Seq<(Seq<char>, SagaDefinition)> {
        self.definitions@
    }

    /// The saga runs, keyed by id.
    pub closed spec fn runs(&self) -> Seq<(Seq<char>, SagaInstanceView)> {
        view_values(self.instances@)
    }

    /// A coordinator with no definitions and no runs.
    pub fn new() -> (r: Self)
        ensures
            r.defs().len() == 0,
            r.runs().len() == 0,
    {
        SagaCoordinator { definitions: KeyedVec::new(), instances: KeyedVec::new() }
    }

    /// Registers `definition` under its id, replacing one with the same id.
    pub fn register_saga(&mut self, definition: SagaDefinition)
        ensures
            keys_unique(final(self).runs()),
            final(self).defs() == seq_insert(old(self).defs(), definition.id@, definition),
            final(self).runs() == old(self).runs(),
    {
        proof {
            use_type_invariant(&self.instances);
        }
        let id = definition.id.clone();
        self.definitions.insert(id, definition);
    }

    /// The first registered definition of type `saga_type`.
    fn definition_of_type(&self, saga_type: &str) -> (r: Option<&SagaDefinition>)
        ensures
            r is Some <==> first_def_of_type(self.defs(), saga_type@) is Some,
            r matches Some(d) ==> first_def_of_type(self.defs(), saga_type@) == Some(*d),
    {
        let n = self.definitions.len();
        let mut i: usize = 0;
        while i < n
            invariant
                n == self.defs().len(),
                i <= n,
                forall|j: int| 0 <= j < i ==> #[trigger] self.defs()[j].1.saga_type@ != saga_type@,
            decreases n - i,
        {
            let d = self.definitions.value_at(i);
            if d.saga_type == String::from_str(saga_type) {
                proof {
                    assert(is_first_of_type(self.defs(), saga_type@, i as int));
                    let c = choose|c: int| is_first_of_type(self.defs(), saga_type@, c);
                    assert(c == i as int) by {
                        if c < i {
                            assert(self.defs()[c].1.saga_type@ != saga_type@);
                        } else if c > i {
                            assert(self.defs()[i as int].1.saga_type@ == saga_type@);
                        }
                    }
                }
                return Some(d);
            }
            i = i + 1;
        }
        proof {
            if exists|c: int| is_first_of_type(self.defs(), saga_type@, c) {
                let c = choose|c: int| is_first_of_type(self.defs(), saga_type@, c);
                assert(self.defs()[c].1.saga_type@ != saga_type@);
            }
        }
        None
    }

    /// Opens a run of `saga_type`: a fresh run at its first step, or, when
    /// no definition of that type is registered, `SagaFailed("Saga
    /// definition not found: <type>")`. The run is not stored: the caller
    /// journals `SagaStarted` and then hands it to `insert_instance`.
    pub fn start_saga(&self, saga_type: &str) -> (r: Result<SagaInstance, OrchestratorError>)
        ensures
            keys_unique(self.runs()),
            r is Ok <==> first_def_of_type(self.defs(), saga_type@) is Some,
            r matches Ok(inst) ==> inst.saga_type@ == saga_type@ && inst.current_step == 0
                && inst.state == SagaInstanceState::Running && inst.completed_steps@.len() == 0
                && inst.instance_id@.len() == 36 && inst.started_at_ns == inst.updated_at_ns,
            r matches Err(e) ==> is_saga_failed(e, "Saga definition not found: "@ + saga_type@),
    {
        proof {
            use_type_invariant(&self.instances);
        }
        match self.definition_of_type(saga_type) {
            Some(_) => Ok(SagaInstance::new(saga_type)),
            None => Err(
                OrchestratorError::SagaFailed(concat_str("Saga definition not found: ", saga_type)),
            ),
        }
    }

    /// The event that journals the opening of `instance`.
    pub fn started_event(instance: &SagaInstance) -> (e: SystemEvent)
        ensures
            e matches SystemEvent::SagaStarted { saga_id, saga_type } && saga_id@
                == instance.instance_id@ && saga_type@ == instance.saga_type@,
    {
        SystemEvent::SagaStarted {
            saga_id: instance.instance_id.clone(),
            saga_type: instance.saga_type.clone(),
        }
    }

    /// Stores a run under its id.
    pub fn insert_instance(&mut self, instance: SagaInstance)
        ensures
            keys_unique(old(self).runs()),
            keys_unique(final(self).runs()),
            lookup(final(self).runs(), instance.instance_id@) == Some(instance@),
            final(self).runs() == seq_insert(old(self).runs(), instance.instance_id@, instance@),
            final(self).defs() == old(self).defs(),
    {
        proof {
            use_type_invariant(&self.instances);
            lemma_view_values_insert(self.instances@, instance.instance_id@, instance);
            lemma_lookup_insert(
                view_values(self.instances@),
                instance.instance_id@,
                instance@,
                instance.instance_id@,
            );
        }
        let id = instance.instance_id.clone();
        self.instances.insert(id, instance);
    }

    /// Moves run `saga_id` one step on. A run already past its last step is
    /// marked completed instead (journalled as `SagaCompleted`); otherwise
    /// its current step is recorded as completed and the next one becomes
    /// current (journalled as `SagaStepCompleted` with the new step). An
    /// unknown run, or one whose type has no definition, is refused with
    /// `SagaFailed` and nothing changes.
    pub fn advance_saga(&mut self, saga_id: &str) -> (r: Result<SystemEvent, OrchestratorError>)
        ensures
            keys_unique(old(self).runs()),
            keys_unique(final(self).runs()),
            final(self).defs() == old(self).defs(),
            !has_key(old(self).runs(), saga_id@) ==> final(self).runs() == old(self).runs()
                && (r matches Err(e) && is_saga_failed(e, "Saga not found: "@ + saga_id@)),
            has_key(old(self).runs(), saga_id@) ==> ({
                let p = key_pos(old(self).runs(), saga_id@);
                let inst = old(self).runs()[p].1;
                match first_def_of_type(old(self).defs(), inst.saga_type) {
                    None => final(self).runs() == old(self).runs() && (r matches Err(e)
                        && is_saga_failed(e, "Saga definition not found: "@ + inst.saga_type)),
                    Some(d) => if inst.current_step >= d.steps@.len() {
                        &&& final(self).runs() == old(self).runs().update(
                            p,
                            (saga_id@, SagaInstanceView { state: SagaInstanceState::Completed, ..inst }),
                        )
                        &&& r matches Ok(SystemEvent::SagaCompleted { saga_id: s }) && s@ == saga_id@
                    } else {
                        &&& final(self).runs() == old(self).runs().update(
                            p,
                            (
                                saga_id@,
                                SagaInstanceView {
                                    current_step: (inst.current_step + 1) as usize,
                                    completed_steps: inst.completed_steps.push(inst.current_step),
                                    updated_at_ns: final(self).runs()[p].1.updated_at_ns,
                                    ..inst
                                },
                            ),
                        )
                        &&& r matches Ok(SystemEvent::SagaStepCompleted { saga_id: s, step_index })
                            && s@ == saga_id@ && step_index == inst.current_step + 1
                    },
                }
            }),
            moved_by_advance(old(self).runs(), old(self).defs(), final(self).runs(), saga_id@),
            r matches Ok(e) ==> journals_advance(old(self).runs(), old(self).defs(), saga_id@, e),
    {
        proof {
            use_type_invariant(&self.instances);
            lemma_view_values(self.instances@, saga_id@);
        }
        let p = match self.instances.find(saga_id) {
            Some(p) => p,
            None => {
                return Err(OrchestratorError::SagaFailed(concat_str("Saga not found: ", saga_id)));
            },
        };
        let mut inst = self.instances.value_at(p).clone();
        let total = match self.definition_of_type(inst.saga_type.as_str()) {
            Some(d) => d.steps.len(),
            None => {
                return Err(
                    OrchestratorError::SagaFailed(
                        concat_str("Saga definition not found: ", inst.saga_type.as_str()),
                    ),
                );
            },
        };
        proof {
            assert(total == total_steps_of(self.defs(), inst.saga_type@));
            assert(lookup(self.runs(), saga_id@) == Some(inst@));
        }
        let ghost s = self.instances@;
        if inst.current_step >= total {
            inst.state = SagaInstanceState::Completed;
            self.instances.replace_at(p, inst);
            proof {
                assert(self.runs() =~= view_values(s).update(
                    p as int,
                    (saga_id@, SagaInstanceView { state: SagaInstanceState::Completed, ..view_values(s)[p as int].1 }),
                ));
                lemma_replaced_run_reads_back(
                    view_values(s),
                    p as int,
                    SagaInstanceView { state: SagaInstanceState::Completed, ..view_values(s)[p as int].1 },
                );
            }
            return Ok(SystemEvent::SagaCompleted { saga_id: String::from_str(saga_id) });
        }
        inst.advance_step();
        let step_index = inst.current_step;
        self.instances.replace_at(p, inst);
        proof {
            assert(self.runs() =~= view_values(s).update(
                p as int,
                (
                    saga_id@,
                    SagaInstanceView {
                        current_step: (view_values(s)[p as int].1.current_step + 1) as usize,
                        completed_steps: view_values(s)[p as int].1.completed_steps.push(
                            view_values(s)[p as int].1.current_step,
                        ),
                        updated_at_ns: self.runs()[p as int].1.updated_at_ns,
                        ..view_values(s)[p as int].1
                    },
                ),
            ));
            lemma_replaced_run_reads_back(view_values(s), p as int, self.runs()[p as int].1);
        }
        Ok(SystemEvent::SagaStepCompleted { saga_id: String::from_str(saga_id), step_index })
    }

    /// Undoes every completed step of run `saga_id`, newest first: the run
    /// is marked compensating, ends with no completed step and with its
    /// first completed step (if it had one) current again. The
    /// `SagaCompensated` event lists the undone steps in the order they
    /// were undone. An unknown run is refused with `SagaFailed`.
    pub fn compensate_saga(&mut self, saga_id: &str) -> (r: Result<SystemEvent, OrchestratorError>)
        ensures
            keys_unique(old(self).runs()),
            keys_unique(final(self).runs()),
            final(self).defs() == old(self).defs(),
            !has_key(old(self).runs(), saga_id@) ==> final(self).runs() == old(self).runs()
                && (r matches Err(e) && is_saga_failed(e, "Saga not found: "@ + saga_id@)),
            has_key(old(self).runs(), saga_id@) ==> ({
                let p = key_pos(old(self).runs(), saga_id@);
                let inst = old(self).runs()[p].1;
                &&& final(self).runs() == old(self).runs().update(
                    p,
                    (
                        saga_id@,
                        SagaInstanceView {
                            state: SagaInstanceState::Compensating,
                            completed_steps: Seq::empty(),
                            current_step: if inst.completed_steps.len() > 0 {
                                inst.completed_steps[0]
                            } else {
                                inst.current_step
                            },
                            updated_at_ns: final(self).runs()[p].1.updated_at_ns,
                            ..inst
                        },
                    ),
                )
                &&& r matches Ok(SystemEvent::SagaCompensated { saga_id: s, compensated_steps })
                    && s@ == saga_id@ && compensated_steps@ == inst.completed_steps.reverse()
            }),
    {
        proof {
            use_type_invariant(&self.instances);
            lemma_view_values(self.instances@, saga_id@);
        }
        let p = match self.instances.find(saga_id) {
            Some(p) => p,
            None => {
                return Err(OrchestratorError::SagaFailed(concat_str("Saga not found: ", saga_id)));
            },
        };
        let ghost s = self.instances@;
        let mut inst = self.instances.value_at(p).clone();
        let ghost done = inst.completed_steps@;
        let ghost first = inst@;
        inst.start_compensation();
        let mut compensated: Vec<usize> = Vec::new();
        while inst.completed_steps.len() > 0
            invariant
                inst.completed_steps@ == done.take(done.len() - compensated@.len()),
                compensated@.len() <= done.len(),
                forall|i: int| 0 <= i < compensated@.len() ==> #[trigger] compensated@[i] == done[done.len() - 1 - i],
                compensated@.len() > 0 ==> inst.current_step == done[done.len() - compensated@.len()],
                compensated@.len() == 0 ==> inst.current_step == first.current_step,
                inst.state == SagaInstanceState::Compensating,
                inst.instance_id@ == first.instance_id,
                inst.saga_type@ == first.saga_type,
                inst.started_at_ns == first.started_at_ns,
            decreases inst.completed_steps@.len(),
        {
            let ghost before = inst.completed_steps@;
            inst.compensate_step();
            proof {
                assert(before.drop_last() =~= done.take(done.len() - compensated@.len() - 1));
            }
            compensated.push(inst.current_step);
        }
        proof {
            assert(compensated@ =~= done.reverse());
            assert(done.len() > 0 ==> inst.current_step == done[0]);
            assert(inst.completed_steps@ =~= Seq::<usize>::empty());
            assert(view_values(s)[p as int].1 == first);
            assert(view_values(s)[p as int].0 == saga_id@);
        }
        let event_steps = compensated;
        self.instances.replace_at(p, inst);
        proof {
            assert(self.runs() =~= view_values(s).update(
                p as int,
                (
                    saga_id@,
                    SagaInstanceView {
                        state: SagaInstanceState::Compensating,
                        completed_steps: Seq::empty(),
                        current_step: if done.len() > 0 {
                            done[0]
                        } else {
                            first.current_step
                        },
                        updated_at_ns: self.runs()[p as int].1.updated_at_ns,
                        ..first
                    },
                ),
            ));
        }
        Ok(SystemEvent::SagaCompensated { saga_id: String::from_str(saga_id), compensated_steps: event_steps })
    }

    /// A summary of every run, in the order the runs are kept: its id, type,
    /// current step, state, and the number of steps of its definition (0
    /// when its type has none).
    pub fn list_instances(&self) -> (r: Vec<SagaInstanceSummary>)
        ensures
            keys_unique(self.runs()),
            r@.len() == self.runs().len(),
            forall|i: int|
                0 <= i < r@.len() ==> {
                    let inst = #[trigger] self.runs()[i].1;
                    &&& r@[i].instance_id@ == inst.instance_id
                    &&& r@[i].saga_type@ == inst.saga_type
                    &&& r@[i].current_step == inst.current_step
                    &&& r@[i].state == inst.state
                    &&& r@[i].total_steps == total_steps_of(self.defs(), inst.saga_type)
                },
    {
        proof {
            use_type_invariant(&self.instances);
        }
        let n = self.instances.len();
        let mut r: Vec<SagaInstanceSummary> = Vec::new();
        let mut i: usize = 0;
        while i < n
            invariant
                n == self.runs().len(),
                n == self.instances@.len(),
                i <= n,
                r@.len() == i,
                forall|j: int|
                    0 <= j < i ==> {
                        let inst = #[trigger] self.runs()[j].1;
                        &&& r@[j].instance_id@ == inst.instance_id
                        &&& r@[j].saga_type@ == inst.saga_type
                        &&& r@[j].current_step == inst.current_step
                        &&& r@[j].state == inst.state
                        &&& r@[j].total_steps == total_steps_of(self.defs(), inst.saga_type)
                    },
            decreases n - i,
        {
            let inst = self.instances.value_at(i);
            let total_steps = match self.definition_of_type(inst.saga_type.as_str()) {
                Some(d) => d.steps.len(),
                None => 0,
            };
            r.push(
                SagaInstanceSummary {
                    instance_id: inst.instance_id.clone(),
                    saga_type: inst.saga_type.clone(),
                    current_step: inst.current_step,
                    total_steps,
                    state: inst.state.clone(),
                },
            );
            i = i + 1;
        }
        r
    }

    /// A copy of run `instance_id`, if there is one.
    pub fn get_instance(&self, instance_id: &str) -> (r: Option<SagaInstance>)
        ensures
            keys_unique(self.runs()),
            r is Some <==> has_key(self.runs(), instance_id@),
            r matches Some(inst) ==> lookup(self.runs(), instance_id@) == Some(inst@),
    {
        proof {
            use_type_invariant(&self.instances);
            lemma_view_values(self.instances@, instance_id@);
        }
        match self.instances.get(instance_id) {
            Some(inst) => Some(inst.clone()),
            None => None,
        }
    }

    /// Rebuilds the runs that the journalled `events` describe, oldest
    /// first, and stores each of them under its id, replacing what was
    /// kept under that id.
    pub fn restore_from_journal(&mut self, events: &Vec<WorkflowEvent>)
        ensures
            keys_unique(old(self).runs()),
            keys_unique(final(self).runs()),
            final(self).defs() == old(self).defs(),
            final(self).runs() == merge_into(old(self).runs(), replay(events@)),
    {
        proof {
            use_type_invariant(&self.instances);
        }
        let mut local: KeyedVec<SagaInstance> = KeyedVec::new();
        let n = events.len();
        let mut i: usize = 0;
        proof {
            assert(events@.take(0) =~= Seq::<WorkflowEvent>::empty());
            assert(view_values(local@) =~= replay(events@.take(0)));
        }
        while i < n
            invariant
                n == events@.len(),
                i <= n,
                view_values(local@) == replay(events@.take(i as int)),
            decreases n - i,
        {
            let ev = &events[i];
            let ghost m = local@;
            proof {
                use_type_invariant(&local);
                assert(events@.take(i + 1).drop_last() =~= events@.take(i as int));
                assert(events@.take(i + 1).last() == events@[i as int]);
            }
            match &ev.event {
                SystemEvent::SagaStarted { saga_id, saga_type } => {
                    let inst = SagaInstance {
                        instance_id: saga_id.clone(),
                        saga_type: saga_type.clone(),
                        current_step: 0,
                        state: SagaInstanceState::Running,
                        completed_steps: Vec::new(),
                        started_at_ns: ev.timestamp_ns,
                        updated_at_ns: ev.timestamp_ns,
                    };
                    proof {
                        lemma_view_values_insert(m, saga_id@, inst);
                        assert(inst@.completed_steps =~= Seq::<usize>::empty());
                    }
                    local.insert(saga_id.clone(), inst);
                },
                SystemEvent::SagaStepCompleted { saga_id, step_index } => {
                    proof {
                        lemma_view_values(m, saga_id@);
                    }
                    match local.get(saga_id.as_str()) {
                        Some(found) => {
                            let mut inst = found.clone();
                            inst.completed_steps.push(inst.current_step);
                            inst.current_step = *step_index;
                            inst.updated_at_ns = ev.timestamp_ns;
                            proof {
                                lemma_view_values_insert(m, saga_id@, inst);
                            }
                            local.insert(saga_id.clone(), inst);
                        },
                        None => {},
                    }
                },
                SystemEvent::SagaCompensated { saga_id, .. } => {
                    proof {
                        lemma_view_values(m, saga_id@);
                    }
                    match local.get(saga_id.as_str()) {
                        Some(found) => {
                            let mut inst = found.clone();
                            inst.state = SagaInstanceState::Compensating;
                            inst.updated_at_ns = ev.timestamp_ns;
                            proof {
                                lemma_view_values_insert(m, saga_id@, inst);
                            }
                            local.insert(saga_id.clone(), inst);
                        },
                        None => {},
                    }
                },
                SystemEvent::SagaCompleted { saga_id } => {
                    proof {
                        lemma_view_values(m, saga_id@);
                    }
                    match local.get(saga_id.as_str()) {
                        Some(found) => {
                            let mut inst = found.clone();
                            inst.state = SagaInstanceState::Completed;
                            inst.updated_at_ns = ev.timestamp_ns;
                            proof {
                                lemma_view_values_insert(m, saga_id@, inst);
                            }
                            local.insert(saga_id.clone(), inst);
                        },
                        None => {},
                    }
                },
                _ => {},
            }
            i = i + 1;
        }
        proof {
            assert(events@.take(n as int) =~= events@);
        }
        let ghost base = self.runs();
        let ghost add = view_values(local@);
        let k = local.len();
        let mut j: usize = 0;
        proof {
            assert(add.take(0) =~= Seq::<(Seq<char>, SagaInstanceView)>::empty());
        }
        while j < k
            invariant
                k == local@.len(),
                add == view_values(local@),
                j <= k,
                self.runs() == merge_into(base, add.take(j as int)),
                self.defs() == old(self).defs(),
            decreases k - j,
        {
            proof {
                use_type_invariant(&self.instances);
                assert(add.take(j + 1).drop_last() =~= add.take(j as int));
            }
            let key = local.key_at(j).clone();
            let inst = local.value_at(j).clone();
            proof {
                lemma_view_values_insert(self.instances@, key@, inst);
            }
            self.instances.insert(key, inst);
            j = j + 1;
        }
        proof {
            assert(add.take(k as int) =~= add);
            use_type_invariant(&self.instances);
        }
    }
}

/// Replaying the `SagaCompensated` entry of a stored run marks it
/// compensating, the state `compensate_saga` leaves it in, and keeps its
/// id and type; any other run reads back as before.
pub proof fn law_replay_marks_compensated(
    m: Seq<(Seq<char>, SagaInstanceView)>,
    id: Seq<char>,
    e: WorkflowEvent,
    other: Seq<char>,
)
    requires
        keys_unique(m),
        has_key(m, id),
        e.event matches SystemEvent::SagaCompensated { saga_id, .. } && saga_id@ == id,
        other != id,
    ensures
        lookup(replay_event(m, e), id) matches Some(w) && w.state == SagaInstanceState::Compensating
            && w.instance_id == m[key_pos(m, id)].1.instance_id && w.saga_type == m[key_pos(
            m,
            id,
        )].1.saga_type,
        lookup(replay_event(m, e), other) == lookup(m, other),
{
    let p = key_pos(m, id);
    lemma_key_pos_unique(m, p);
    let inst = m[p].1;
    let w = SagaInstanceView {
        state: SagaInstanceState::Compensating,
        updated_at_ns: e.timestamp_ns,
        ..inst
    };
    lemma_lookup_insert(m, id, w, id);
    lemma_lookup_insert(m, id, w, other);
}

} // verus!
