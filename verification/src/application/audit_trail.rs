use vstd::prelude::*;
use crate::domain::audit::AuditEntry;
use crate::domain::journal::{JournalEntry, JournalKind, kind_name};
use crate::keyed::str_equal;
use crate::persistence::audit_store::{stamped_within, within};
use crate::selection::{lemma_select_step, select};

verus! {

/// Whether a journal entry is of kind `k`.
pub open spec fn of_kind(k: JournalKind) -> spec_fn(JournalEntry) -> bool {
    |e: JournalEntry| e.entry_type@ == kind_name(k)
}

/// The journal entry that records `entry`, whose JSON text is `payload`.
pub fn audit_journal_entry(entry: &AuditEntry, payload: String) -> (r: JournalEntry)
    ensures
        r.sequence is None,
        r.timestamp_ns == entry.timestamp_ns,
        r.entry_type@ == kind_name(JournalKind::Audit),
        r.payload == payload,
        r.checksum is None,
{
    JournalEntry::new(JournalKind::Audit, entry.timestamp_ns, payload)
}

/// The audit records among journal entries, in journal order.
pub fn audit_records(entries: &Vec<JournalEntry>) -> (r: Vec<JournalEntry>)
    ensures
        r@ == select(entries@, of_kind(JournalKind::Audit)),
{
    let ghost p = of_kind(JournalKind::Audit);
    let n = entries.len();
    let mut r: Vec<JournalEntry> = Vec::new();
    let mut i: usize = 0;
    proof {
        assert(entries@.take(0) =~= Seq::<JournalEntry>::empty());
    }
    while i < n
        invariant
            p == of_kind(JournalKind::Audit),
            n == entries@.len(),
            i <= n,
            r@ == select(entries@.take(i as int), p),
        decreases n - i,
    {
        proof {
            lemma_select_step(entries@, p, i as int);
        }
        if str_equal(entries[i].entry_type.as_str(), JournalKind::Audit.as_str()) {
            r.push(entries[i].clone());
        }
        i = i + 1;
    }
    proof {
        assert(entries@.take(n as int) =~= entries@);
    }
    r
}

/// The audit entries stamped within the optional bounds (both inclusive),
/// in their order.
pub fn entries_in_range(entries: Vec<AuditEntry>, from: Option<u64>, to: Option<u64>) -> (r: Vec<
    AuditEntry,
>)
    ensures
        r@ == select(entries@, stamped_within(from, to)),
{
    let ghost p = stamped_within(from, to);
    let n = entries.len();
    let mut r: Vec<AuditEntry> = Vec::new();
    let mut i: usize = 0;
    proof {
        assert(entries@.take(0) =~= Seq::<AuditEntry>::empty());
    }
    while i < n
        invariant
            p == stamped_within(from, to),
            n == entries@.len(),
            i <= n,
            r@ == select(entries@.take(i as int), p),
        decreases n - i,
    {
        proof {
            lemma_select_step(entries@, p, i as int);
        }
        if within(entries[i].timestamp_ns, from, to) {
            r.push(entries[i].clone());
        }
        i = i + 1;
    }
    proof {
        assert(entries@.take(n as int) =~= entries@);
    }
    r
}

} // verus!
