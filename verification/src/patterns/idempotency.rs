use vstd::prelude::*;
use vstd::string::*;
use crate::keyed::{KeyedVec, lookup, seq_insert};
use crate::time_source::now_secs;

verus! {

/// Whether every recorded time is at most `now`.
pub open spec fn all_at_most(m: Seq<(Seq<char>, u64)>, now: u64) -> bool {
    forall|i: int| 0 <= i < m.len() ==> (#[trigger] m[i]).1 <= now
}

/// Whether a key recorded at `ts` is still fresh at `now`.
pub open spec fn fresh(ts: u64, now: u64, ttl: u64) -> bool {
    now - ts < ttl
}

/// Whether `key` is recorded and still fresh at `now`.
pub open spec fn duplicate_at(m: Seq<(Seq<char>, u64)>, key: Seq<char>, now: u64, ttl: u64) -> bool {
    match lookup(m, key) {
        Some(ts) => fresh(ts, now, ttl),
        None => false,
    }
}

/// Whether `key`, if it is recorded, was recorded at or before `now`.
pub open spec fn stamped_by(m: Seq<(Seq<char>, u64)>, key: Seq<char>, now: u64) -> bool {
    lookup(m, key) matches Some(ts) ==> ts <= now
}

/// The recorded keys that are still fresh at `now`, in order.
pub open spec fn fresh_entries(m: Seq<(Seq<char>, u64)>, now: u64, ttl: u64) -> Seq<(Seq<char>, u64)> {
    m.filter(|e: (Seq<char>, u64)| fresh(e.1, now, ttl))
}

/// Remembers, for `ttl_secs`, the keys of requests already processed.
pub struct IdempotencyStore {
    processed_keys: KeyedVec<u64>,
    ttl_secs: u64,
}

impl IdempotencyStore {
    /// The processed keys with the second each was recorded at.
    pub closed spec fn keys(&self) -> Seq<(Seq<char>, u64)> {
        self.processed_keys@
    }

    /// How long a key is remembered, in seconds.
    pub closed spec fn ttl(&self) -> u64 {
        self.ttl_secs
    }

    /// An empty store that remembers keys for `ttl_secs`.
    pub fn new(ttl_secs: u64) -> (r: Self)
        ensures
            r.keys().len() == 0,
            r.ttl() == ttl_secs,
    {
        IdempotencyStore { processed_keys: KeyedVec::new(), ttl_secs }
    }

    /// Whether `key` was processed less than the time-to-live before `now`
    /// (in seconds since the epoch).
    pub fn is_duplicate_at(&self, key: &str, now: u64) -> (b: bool)
        requires
            stamped_by(self.keys(), key@, now),
        ensures
            b == duplicate_at(self.keys(), key@, now, self.ttl()),
    {
        match self.processed_keys.get(key) {
            Some(ts) => now - *ts < self.ttl_secs,
            None => false,
        }
    }

    /// Whether `key` was processed less than the time-to-live ago. `None`
    /// when the clock reads earlier than the time `key` was recorded at,
    /// which the subtraction of its age cannot handle.
    pub fn is_duplicate(&self, key: &str) -> (r: Option<bool>)
        ensures
            exists|now: u64|
                #[trigger] stamped_by(self.keys(), key@, now) == (r is Some) && (r matches Some(b)
                    ==> b == duplicate_at(self.keys(), key@, now, self.ttl())),
    {
        let now = now_secs();
        let recorded_by_now = match self.processed_keys.get(key) {
            Some(ts) => *ts <= now,
            None => true,
        };
        assert(stamped_by(self.keys(), key@, now) == recorded_by_now);
        if recorded_by_now {
            Some(self.is_duplicate_at(key, now))
        } else {
            None
        }
    }

    /// Whether every key was recorded at or before `now`.
    fn all_recorded_by(&self, now: u64) -> (b: bool)
        ensures
            b == all_at_most(self.keys(), now),
    {
        let n = self.processed_keys.len();
        let mut i: usize = 0;
        while i < n
            invariant
                n == self.keys().len(),
                i <= n,
                forall|j: int| 0 <= j < i ==> (#[trigger] self.keys()[j]).1 <= now,
            decreases n - i,
        {
            if *self.processed_keys.value_at(i) > now {
                return false;
            }
            i = i + 1;
        }
        true
    }

    /// Records `key` as processed at `now`.
    pub fn mark_processed_at(&mut self, key: &str, now: u64)
        ensures
            final(self).keys() == seq_insert(old(self).keys(), key@, now),
            final(self).ttl() == old(self).ttl(),
    {
        self.processed_keys.insert(String::from_str(key), now);
    }

    /// Records `key` as processed now.
    pub fn mark_processed(&mut self, key: &str)
        ensures
            exists|now: u64| final(self).keys() == seq_insert(old(self).keys(), key@, now),
            final(self).ttl() == old(self).ttl(),
    {
        let now = now_secs();
        self.mark_processed_at(key, now);
    }

    /// Forgets every key that is no longer fresh at `now`.
    pub fn cleanup_at(&mut self, now: u64)
        requires
            all_at_most(old(self).keys(), now),
        ensures
            final(self).keys() == fresh_entries(old(self).keys(), now, old(self).ttl()),
            final(self).ttl() == old(self).ttl(),
    {
        proof {
            use_type_invariant(&self.processed_keys);
        }
        let ghost orig = self.keys();
        let mut kept: KeyedVec<u64> = KeyedVec::new();
        let n = self.processed_keys.len();
        let mut i: usize = 0;
        proof {
            reveal(Seq::filter);
            assert(orig.take(0).filter(|e: (Seq<char>, u64)| fresh(e.1, now, self.ttl_secs)) =~= Seq::<(Seq<char>, u64)>::empty());
        }
        while i < n
            invariant
                n == orig.len(),
                orig == self.keys(),
                all_at_most(orig, now),
                i <= n,
                kept@ == orig.take(i as int).filter(|e: (Seq<char>, u64)| fresh(e.1, now, self.ttl_secs)),
                crate::keyed::keys_unique(orig),
            decreases n - i,
        {
            proof {
                reveal(Seq::filter);
                use_type_invariant(&kept);
                assert(orig.take(i + 1).drop_last() =~= orig.take(i as int));
                assert(orig.take(i + 1).last() == orig[i as int]);
            }
            let ts = *self.processed_keys.value_at(i);
            proof {
                assert(orig[i as int].1 <= now);
            }
            if now - ts < self.ttl_secs {
                let k = self.processed_keys.key_at(i).clone();
                proof {
                    let f = |e: (Seq<char>, u64)| fresh(e.1, now, self.ttl_secs);
                    let prev = orig.take(i as int).filter(f);
                    assert(!crate::keyed::has_key(prev, k@)) by {
                        if crate::keyed::has_key(prev, k@) {
                            let q = crate::keyed::key_pos(prev, k@);
                            assert(prev.contains(prev[q]));
                            orig.take(i as int).lemma_filter_contains_rev(f, prev[q]);
                            let w = choose|w: int| 0 <= w < i && orig.take(i as int)[w] == prev[q];
                            assert(orig[w].0 == orig[i as int].0);
                        }
                    }
                    assert(seq_insert(prev, k@, ts) == prev.push((k@, ts)));
                }
                kept.insert(k, ts);
            }
            i = i + 1;
        }
        proof {
            assert(orig.take(n as int) =~= orig);
        }
        self.processed_keys = kept;
    }

    /// Forgets every key that is no longer fresh now. Returns false, and
    /// forgets nothing, when the clock reads earlier than a recorded time.
    pub fn cleanup(&mut self) -> (done: bool)
        ensures
            exists|now: u64|
                #[trigger] all_at_most(old(self).keys(), now) == done && (done ==> final(self).keys()
                    == fresh_entries(old(self).keys(), now, old(self).ttl())),
            !done ==> final(self).keys() == old(self).keys(),
            final(self).ttl() == old(self).ttl(),
    {
        let now = now_secs();
        if self.all_recorded_by(now) {
            self.cleanup_at(now);
            true
        } else {
            false
        }
    }
}

/// A key marked processed at `t` is a duplicate at `now` exactly while it
/// is fresh: for less than the time-to-live after `t`.
pub proof fn law_marked_key_is_duplicate_while_fresh(
    m: Seq<(Seq<char>, u64)>,
    key: Seq<char>,
    t: u64,
    now: u64,
    ttl: u64,
)
    requires
        crate::keyed::keys_unique(m),
    ensures
        duplicate_at(seq_insert(m, key, t), key, now, ttl) == fresh(t, now, ttl),
{
    crate::keyed::lemma_lookup_insert(m, key, t, key);
}

/// Forgetting the keys that are no longer fresh changes no answer to
/// whether a request is a duplicate.
pub proof fn law_cleanup_keeps_duplicates(
    m: Seq<(Seq<char>, u64)>,
    k: Seq<char>,
    now: u64,
    ttl: u64,
)
    requires
        crate::keyed::keys_unique(m),
    ensures
        duplicate_at(fresh_entries(m, now, ttl), k, now, ttl) == duplicate_at(m, k, now, ttl),
{
    let f = |e: (Seq<char>, u64)| fresh(e.1, now, ttl);
    let g = m.filter(f);
    assert(fresh_entries(m, now, ttl) == g);
    if crate::keyed::has_key(g, k) {
        let q = crate::keyed::key_pos(g, k);
        assert(g.contains(g[q]));
        m.lemma_filter_contains_rev(f, g[q]);
        m.lemma_filter_pred(f, q);
        let w = choose|w: int| 0 <= w < m.len() && m[w] == g[q];
        crate::keyed::lemma_key_pos_unique(m, w);
        assert(lookup(g, k) == Some(g[q].1));
        assert(lookup(m, k) == Some(m[w].1));
    } else if crate::keyed::has_key(m, k) {
        let p = crate::keyed::key_pos(m, k);
        if f(m[p]) {
            m.lemma_filter_contains(f, p);
            let q = choose|q: int| 0 <= q < g.len() && g[q] == m[p];
            assert(g[q].0 == k);
            assert(false);
        }
    }
}

} // verus!
