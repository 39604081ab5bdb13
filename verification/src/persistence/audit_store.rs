use vstd::prelude::*;
use crate::domain::audit::AuditEntry;
use crate::selection::{at_most, lemma_select_prefix, lemma_select_step, select};

verus! {

/// Whether a timestamp lies within the optional bounds, both inclusive.
pub open spec fn in_range(ts: u64, from: Option<u64>, to: Option<u64>) -> bool {
    (from matches Some(f) ==> ts >= f) && (to matches Some(t) ==> ts <= t)
}

/// Whether an audit entry was stamped within the optional bounds.
pub open spec fn stamped_within(from: Option<u64>, to: Option<u64>) -> spec_fn(AuditEntry) -> bool {
    |e: AuditEntry| in_range(e.timestamp_ns, from, to)
}

/// Whether `x` lies within the optional bounds, both inclusive.
pub fn within(x: u64, from: Option<u64>, to: Option<u64>) -> (b: bool)
    ensures
        b == in_range(x, from, to),
{
    let after = match from {
        Some(f) => x >= f,
        None => true,
    };
    let before = match to {
        Some(t) => x <= t,
        None => true,
    };
    after && before
}

/// The audit trail kept in memory, oldest first.
#[derive(Debug)]
pub struct AuditStore {
    entries: Vec<AuditEntry>,
}

impl AuditStore {
    /// The saved entries, oldest first.
    pub closed spec fn entries(&self) -> Seq<AuditEntry> {
        self.entries@
    }

    /// An empty store.
    pub fn new() -> (r: Self)
        ensures
            r.entries().len() == 0,
    {
        AuditStore { entries: Vec::new() }
    }

    /// Appends `entry`.
    pub fn save(&mut self, entry: AuditEntry)
        ensures
            final(self).entries() == old(self).entries().push(entry),
    {
        self.entries.push(entry);
    }

    /// Up to `limit` of the entries stamped within the bounds, oldest first.
    pub fn query(&self, from: Option<u64>, to: Option<u64>, limit: usize) -> (r: Vec<AuditEntry>)
        ensures
            r@ == at_most(select(self.entries(), stamped_within(from, to)), limit as int),
    {
        let ghost s = self.entries();
        let ghost p = stamped_within(from, to);
        let n = self.entries.len();
        let mut r: Vec<AuditEntry> = Vec::new();
        let mut i: usize = 0;
        proof {
            assert(s.take(0) =~= Seq::<AuditEntry>::empty());
        }
        while i < n && r.len() < limit
            invariant
                s == self.entries(),
                p == stamped_within(from, to),
                n == s.len(),
                i <= n,
                r@.len() <= limit,
                r@ == select(s.take(i as int), p),
            decreases n - i,
        {
            proof {
                lemma_select_step(s, p, i as int);
            }
            if within(self.entries[i].timestamp_ns, from, to) {
                r.push(self.entries[i].clone());
            }
            i = i + 1;
        }
        proof {
            lemma_select_prefix(s, p, i as int, n as int);
            assert(s.take(n as int) =~= s);
        }
        r
    }

    /// A copy of the first entry with id `id`.
    pub fn get_by_id(&self, id: &str) -> (r: Option<AuditEntry>)
        ensures
            r is None <==> forall|i: int|
                0 <= i < self.entries().len() ==> #[trigger] self.entries()[i].id@ != id@,
            r matches Some(e) ==> exists|i: int|
                0 <= i < self.entries().len() && self.entries()[i] == e && e.id@ == id@
                    && forall|j: int| 0 <= j < i ==> #[trigger] self.entries()[j].id@ != id@,
    {
        let n = self.entries.len();
        let mut i: usize = 0;
        while i < n
            invariant
                n == self.entries().len(),
                i <= n,
                forall|j: int| 0 <= j < i ==> #[trigger] self.entries()[j].id@ != id@,
            decreases n - i,
        {
            if crate::keyed::str_equal(self.entries[i].id.as_str(), id) {
                let e = self.entries[i].clone();
                assert(self.entries()[i as int] == e);
                return Some(e);
            }
            i = i + 1;
        }
        None
    }
}

/// Without bounds, a query selects every entry: the first `limit` are
/// returned.
pub proof fn law_unbounded_query_selects_all(s: Seq<AuditEntry>)
    ensures
        select(s, stamped_within(None, None)) == s,
    decreases s.len(),
{
    if s.len() > 0 {
        law_unbounded_query_selects_all(s.drop_last());
        assert(s.drop_last().push(s.last()) =~= s);
    }
}

} // verus!
