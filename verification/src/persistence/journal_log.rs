use vstd::prelude::*;
use crate::domain::journal::JournalEntry;
use crate::selection::{at_most, last_at_most, lemma_select_prefix, lemma_select_step, select};

verus! {

/// Whether an entry carries a sequence number at or after `seq`.
pub open spec fn sequenced_from(seq: u64) -> spec_fn(JournalEntry) -> bool {
    |e: JournalEntry| e.sequence matches Some(s) && s >= seq
}

/// The sequence numbers handed out to appended journal entries: the first
/// is 1, each next one is one more.
#[derive(Debug)]
pub struct JournalSequence {
    current: u64,
}

impl JournalSequence {
    /// The number last handed out (0 before the first append).
    pub closed spec fn value(&self) -> u64 {
        self.current
    }

    /// A sequence that has handed out nothing yet.
    pub fn new() -> (r: Self)
        ensures
            r.value() == 0,
    {
        JournalSequence { current: 0 }
    }

    /// The number last handed out.
    pub fn current(&self) -> (n: u64)
        ensures
            n == self.value(),
    {
        self.current
    }

    /// Gives `entry` the next sequence number, which is returned too.
    pub fn stamp(&mut self, entry: JournalEntry) -> (r: (u64, JournalEntry))
        requires
            old(self).value() < u64::MAX,
        ensures
            final(self).value() == old(self).value() + 1,
            r.0 == final(self).value(),
            r.1 == (JournalEntry { sequence: Some(r.0), ..entry }),
    {
        self.current = self.current + 1;
        let n = self.current;
        (n, JournalEntry { sequence: Some(n), ..entry })
    }
}

/// Up to `limit` of the entries, in journal order, whose sequence number is
/// at least `seq`; entries without one are skipped.
pub fn entries_from(all: &Vec<JournalEntry>, seq: u64, limit: usize) -> (r: Vec<JournalEntry>)
    ensures
        r@ == at_most(select(all@, sequenced_from(seq)), limit as int),
{
    let n = all.len();
    let mut r: Vec<JournalEntry> = Vec::new();
    let mut i: usize = 0;
    proof {
        assert(all@.take(0) =~= Seq::<JournalEntry>::empty());
    }
    while i < n && r.len() < limit
        invariant
            n == all@.len(),
            i <= n,
            r@.len() <= limit,
            r@ == select(all@.take(i as int), sequenced_from(seq)),
        decreases n - i,
    {
        proof {
            lemma_select_step(all@, sequenced_from(seq), i as int);
        }
        let keep = match all[i].sequence {
            Some(s) => s >= seq,
            None => false,
        };
        if keep {
            r.push(all[i].clone());
        }
        i = i + 1;
    }
    proof {
        let p = sequenced_from(seq);
        if i == n {
            assert(all@.take(n as int) =~= all@);
            lemma_select_prefix(all@, p, 0, n as int);
        } else {
            lemma_select_prefix(all@, p, i as int, n as int);
            assert(all@.take(n as int) =~= all@);
        }
    }
    r
}

/// The last `limit` entries, in journal order (all of them when there are
/// fewer).
pub fn latest_entries(all: Vec<JournalEntry>, limit: usize) -> (r: Vec<JournalEntry>)
    ensures
        r@ == last_at_most(all@, limit as int),
{
    let n = all.len();
    if limit >= n {
        return all;
    }
    let start = n - limit;
    let mut r: Vec<JournalEntry> = Vec::new();
    let mut i: usize = start;
    while i < n
        invariant
            n == all@.len(),
            start == n - limit,
            start <= i <= n,
            r@ == all@.subrange(start as int, i as int),
        decreases n - i,
    {
        r.push(all[i].clone());
        proof {
            assert(r@ =~= all@.subrange(start as int, i + 1));
        }
        i = i + 1;
    }
    proof {
        assert(all@.skip(all@.len() - limit) =~= all@.subrange(start as int, n as int));
    }
    r
}

} // verus!
