use vstd::prelude::*;
use vstd::string::*;

verus! {

/// Whether no key occurs twice among the entries.
pub open spec fn keys_unique<V>(s: Seq<(Seq<char>, V)>) -> bool {
    forall|i: int, j: int|
        0 <= i < s.len() && 0 <= j < s.len() && i != j ==> #[trigger] s[i].0 != #[trigger] s[j].0
}

/// Whether some entry carries key `k`.
pub open spec fn has_key<V>(s: Seq<(Seq<char>, V)>, k: Seq<char>) -> bool {
    exists|i: int| 0 <= i < s.len() && #[trigger] s[i].0 == k
}

/// The position of the entry with key `k` (meaningful when `has_key`).
pub open spec fn key_pos<V>(s: Seq<(Seq<char>, V)>, k: Seq<char>) -> int {
    choose|i: int| 0 <= i < s.len() && #[trigger] s[i].0 == k
}

/// The value stored under key `k`, if any.
pub open spec fn lookup<V>(s: Seq<(Seq<char>, V)>, k: Seq<char>) -> Option<V> {
    if has_key(s, k) {
        Some(s[key_pos(s, k)].1)
    } else {
        None
    }
}

/// The entries after storing `v` under `k`: an existing entry keeps its place,
/// a new key goes to the end.
pub open spec fn seq_insert<V>(s: Seq<(Seq<char>, V)>, k: Seq<char>, v: V) -> Seq<(Seq<char>, V)> {
    if has_key(s, k) {
        s.update(key_pos(s, k), (k, v))
    } else {
        s.push((k, v))
    }
}

/// The entries after removing the entry with key `k`, if there is one.
pub open spec fn seq_remove_key<V>(s: Seq<(Seq<char>, V)>, k: Seq<char>) -> Seq<(Seq<char>, V)> {
    if has_key(s, k) {
        s.remove(key_pos(s, k))
    } else {
        s
    }
}

/// The keys of the entries, in order.
pub open spec fn seq_keys<V>(s: Seq<(Seq<char>, V)>) -> Seq<Seq<char>> {
    s.map_values(|e: (Seq<char>, V)| e.0)
}

/// The entries after storing every entry of `all`, in order.
pub open spec fn insert_all<V>(m: Seq<(Seq<char>, V)>, all: Seq<(Seq<char>, V)>) -> Seq<
    (Seq<char>, V),
>
    decreases all.len(),
{
    if all.len() == 0 {
        m
    } else {
        seq_insert(insert_all(m, all.drop_last()), all.last().0, all.last().1)
    }
}

/// In a sequence with unique keys, an entry at `i` with key `k` is the one `lookup` finds.
pub proof fn lemma_key_pos_unique<V>(s: Seq<(Seq<char>, V)>, i: int)
    requires
        keys_unique(s),
        0 <= i < s.len(),
    ensures
        has_key(s, s[i].0),
        key_pos(s, s[i].0) == i,
        lookup(s, s[i].0) == Some(s[i].1),
{
    assert(s[i].0 == s[i].0);
    let p = key_pos(s, s[i].0);
    assert(0 <= p < s.len() && s[p].0 == s[i].0);
}

/// What a read gives back after a write of the entries.
pub proof fn lemma_lookup_insert<V>(s: Seq<(Seq<char>, V)>, k: Seq<char>, v: V, k2: Seq<char>)
    requires
        keys_unique(s),
    ensures
        keys_unique(seq_insert(s, k, v)),
        lookup(seq_insert(s, k, v), k2) == (if k2 == k {
            Some(v)
        } else {
            lookup(s, k2)
        }),
        has_key(s, k) ==> seq_insert(s, k, v).len() == s.len(),
        !has_key(s, k) ==> seq_insert(s, k, v).len() == s.len() + 1,
{
    let t = seq_insert(s, k, v);
    if has_key(s, k) {
        let p = key_pos(s, k);
        assert(keys_unique(t)) by {
            assert forall|i: int, j: int|
                0 <= i < t.len() && 0 <= j < t.len() && i != j implies #[trigger] t[i].0
                != #[trigger] t[j].0 by {
                if i == p {
                    assert(s[j].0 != s[p].0);
                } else if j == p {
                    assert(s[i].0 != s[p].0);
                } else {
                    assert(s[i].0 != s[j].0);
                }
            }
        }
        lemma_key_pos_unique(t, p);
        if k2 != k {
            if has_key(s, k2) {
                let q = key_pos(s, k2);
                assert(q != p);
                assert(t[q] == s[q]);
                lemma_key_pos_unique(t, q);
                lemma_key_pos_unique(s, q);
            } else {
                if has_key(t, k2) {
                    let q = key_pos(t, k2);
                    assert(q != p);
                    assert(s[q].0 == k2);
                }
            }
        }
    } else {
        assert(keys_unique(t)) by {
            assert forall|i: int, j: int|
                0 <= i < t.len() && 0 <= j < t.len() && i != j implies #[trigger] t[i].0
                != #[trigger] t[j].0 by {
                if i == s.len() {
                    assert(s[j].0 != k);
                } else if j == s.len() {
                    assert(s[i].0 != k);
                } else {
                    assert(s[i].0 != s[j].0);
                }
            }
        }
        lemma_key_pos_unique(t, s.len() as int);
        if k2 != k {
            if has_key(s, k2) {
                let q = key_pos(s, k2);
                assert(t[q] == s[q]);
                lemma_key_pos_unique(t, q);
                lemma_key_pos_unique(s, q);
            } else {
                if has_key(t, k2) {
                    let q = key_pos(t, k2);
                    assert(q != s.len());
                    assert(s[q].0 == k2);
                }
            }
        }
    }
}

/// What a read gives back after a removal.
pub proof fn lemma_lookup_remove<V>(s: Seq<(Seq<char>, V)>, k: Seq<char>, k2: Seq<char>)
    requires
        keys_unique(s),
    ensures
        keys_unique(seq_remove_key(s, k)),
        lookup(seq_remove_key(s, k), k2) == (if k2 == k {
            None
        } else {
            lookup(s, k2)
        }),
{
    let t = seq_remove_key(s, k);
    if has_key(s, k) {
        let p = key_pos(s, k);
        assert(keys_unique(t)) by {
            assert forall|i: int, j: int|
                0 <= i < t.len() && 0 <= j < t.len() && i != j implies #[trigger] t[i].0
                != #[trigger] t[j].0 by {
                let si = if i < p {
                    i
                } else {
                    i + 1
                };
                let sj = if j < p {
                    j
                } else {
                    j + 1
                };
                assert(t[i] == s[si]);
                assert(t[j] == s[sj]);
                assert(s[si].0 != s[sj].0);
            }
        }
        if has_key(t, k2) {
            let q = key_pos(t, k2);
            let sq = if q < p {
                q
            } else {
                q + 1
            };
            assert(t[q] == s[sq]);
            assert(sq != p);
            lemma_key_pos_unique(s, sq);
            lemma_key_pos_unique(t, q);
        } else if k2 != k && has_key(s, k2) {
            let q = key_pos(s, k2);
            assert(q != p);
            let tq = if q < p {
                q
            } else {
                q - 1
            };
            assert(t[tq] == s[q]);
        }
    }
}

/// In a sequence with unique keys, the first `i + 1` entries are the first `i`
/// with entry `i` stored after them.
pub proof fn lemma_take_succ<V>(s: Seq<(Seq<char>, V)>, i: int, k: Seq<char>)
    requires
        keys_unique(s),
        0 <= i < s.len(),
    ensures
        keys_unique(s.take(i)),
        s.take(i + 1) == seq_insert(s.take(i), s[i].0, s[i].1),
        has_key(s.take(i + 1), k) == (k == s[i].0 || has_key(s.take(i), k)),
        lookup(s.take(i + 1), k) == (if k == s[i].0 {
            Some(s[i].1)
        } else {
            lookup(s.take(i), k)
        }),
{
    let t = s.take(i);
    assert(keys_unique(t)) by {
        assert forall|a: int, b: int|
            0 <= a < t.len() && 0 <= b < t.len() && a != b implies #[trigger] t[a].0
            != #[trigger] t[b].0 by {
            assert(s[a].0 != s[b].0);
        }
    }
    if has_key(t, s[i].0) {
        let q = key_pos(t, s[i].0);
        assert(s[q].0 == s[i].0);
        assert(false);
    }
    assert(s.take(i + 1) =~= t.push(s[i]));
    lemma_lookup_insert(t, s[i].0, s[i].1, k);
    if has_key(s.take(i + 1), k) {
        assert(lookup(s.take(i + 1), k) is Some);
    }
    if has_key(t, k) {
        assert(lookup(t, k) is Some);
    }
    if k == s[i].0 {
        assert(s.take(i + 1)[i].0 == k);
    }
}

/// The entries with each value replaced by its view.
pub open spec fn view_values<V: View>(s: Seq<(Seq<char>, V)>) -> Seq<(Seq<char>, V::V)> {
    s.map_values(|e: (Seq<char>, V)| (e.0, e.1@))
}

/// Taking views keeps the keys, and so their positions and uniqueness.
pub proof fn lemma_view_values<V: View>(s: Seq<(Seq<char>, V)>, k: Seq<char>)
    requires
        keys_unique(s),
    ensures
        keys_unique(view_values(s)),
        has_key(view_values(s), k) == has_key(s, k),
        has_key(s, k) ==> key_pos(view_values(s), k) == key_pos(s, k),
        lookup(view_values(s), k) == (match lookup(s, k) {
            Some(v) => Some(v@),
            None => None,
        }),
{
    let t = view_values(s);
    assert(keys_unique(t)) by {
        assert forall|i: int, j: int|
            0 <= i < t.len() && 0 <= j < t.len() && i != j implies #[trigger] t[i].0
            != #[trigger] t[j].0 by {
            assert(s[i].0 != s[j].0);
        }
    }
    if has_key(s, k) {
        let p = key_pos(s, k);
        assert(t[p].0 == k);
        lemma_key_pos_unique(t, p);
    } else if has_key(t, k) {
        let p = key_pos(t, k);
        assert(s[p].0 == k);
    }
}

/// Taking views keeps the keys unique.
pub broadcast proof fn lemma_view_values_keys_unique<V: View>(s: Seq<(Seq<char>, V)>)
    requires
        keys_unique(s),
    ensures
        #[trigger] keys_unique(view_values(s)),
{
    lemma_view_values(s, Seq::empty());
}

/// Taking views commutes with storing an entry.
pub proof fn lemma_view_values_insert<V: View>(s: Seq<(Seq<char>, V)>, k: Seq<char>, v: V)
    requires
        keys_unique(s),
    ensures
        view_values(seq_insert(s, k, v)) == seq_insert(view_values(s), k, v@),
{
    lemma_view_values(s, k);
    if has_key(s, k) {
        assert(view_values(seq_insert(s, k, v)) =~= seq_insert(view_values(s), k, v@));
    } else {
        assert(view_values(seq_insert(s, k, v)) =~= seq_insert(view_values(s), k, v@));
    }
}

/// A sequence of `(key, value)` entries in which no key occurs twice:
/// the library's map from names to records, kept in insertion order.
#[derive(Debug)]
pub struct KeyedVec<V> {
    entries: Vec<(String, V)>,
}

impl<V> View for KeyedVec<V> {
    type V = Seq<(Seq<char>, V)>;

    closed spec fn view(&self) -> Seq<(Seq<char>, V)> {
        self.entries@.map_values(|e: (String, V)| (e.0@, e.1))
    }
}

impl<V> KeyedVec<V> {
    /// No key occurs twice: the invariant every value of this type keeps.
    #[verifier::type_invariant]
    pub open spec fn unique(self) -> bool {
        keys_unique(self@)
    }

    /// An empty map.
    pub fn new() -> (r: Self)
        ensures
            r@ == Seq::<(Seq<char>, V)>::empty(),
    {
        let r = KeyedVec { entries: Vec::new() };
        assert(r@ =~= Seq::<(Seq<char>, V)>::empty());
        r
    }

    /// The number of entries.
    pub fn len(&self) -> (n: usize)
        ensures
            n == self@.len(),
    {
        self.entries.len()
    }

    /// The position of the entry with key `key`.
    pub fn find(&self, key: &str) -> (r: Option<usize>)
        ensures
            keys_unique(self@),
            r is Some <==> has_key(self@, key@),
            r matches Some(i) ==> i < self@.len() && self@[i as int].0 == key@ && key_pos(
                self@,
                key@,
            ) == i,
    {
        proof {
            use_type_invariant(self);
        }
        let n = self.entries.len();
        let mut i: usize = 0;
        while i < n
            invariant
                n == self.entries@.len(),
                n == self@.len(),
                keys_unique(self@),
                i <= n,
                forall|j: int| 0 <= j < i ==> #[trigger] self@[j].0 != key@,
            decreases n - i,
        {
            let k: &str = self.entries[i].0.as_str();
            proof {
                assert(self@[i as int].0 == self.entries@[i as int].0@);
            }
            if str_equal(k, key) {
                proof {
                    lemma_key_pos_unique(self@, i as int);
                }
                return Some(i);
            }
            i = i + 1;
        }
        None
    }

    /// The value stored under `key`.
    pub fn get(&self, key: &str) -> (r: Option<&V>)
        ensures
            r is Some <==> has_key(self@, key@),
            r matches Some(v) ==> lookup(self@, key@) == Some(*v),
    {
        match self.find(key) {
            Some(i) => Some(&self.entries[i].1),
            None => None,
        }
    }

    /// The key of the entry at position `i`.
    pub fn key_at(&self, i: usize) -> (k: &String)
        requires
            i < self@.len(),
        ensures
            k@ == self@[i as int].0,
    {
        &self.entries[i].0
    }

    /// The value of the entry at position `i`.
    pub fn value_at(&self, i: usize) -> (v: &V)
        requires
            i < self@.len(),
        ensures
            *v == self@[i as int].1,
    {
        &self.entries[i].1
    }

    /// Stores `v` under `key`; returns the value it replaces.
    pub fn insert(&mut self, key: String, v: V) -> (old_v: Option<V>)
        ensures
            final(self)@ == seq_insert(old(self)@, key@, v),
            old_v == lookup(old(self)@, key@),
            keys_unique(final(self)@),
    {
        proof {
            use_type_invariant(&*self);
        }
        match self.find(key.as_str()) {
            Some(i) => {
                let ghost s = self@;
                proof {
                    lemma_lookup_insert(s, key@, v, key@);
                }
                let old_v = self.replace_at(i, v);
                proof {
                    assert(self@ =~= s.update(i as int, (key@, v)));
                }
                Some(old_v)
            },
            None => {
                let ghost s = self@;
                proof {
                    lemma_lookup_insert(s, key@, v, key@);
                }
                let mut es: Vec<(String, V)> = Vec::new();
                std::mem::swap(&mut es, &mut self.entries);
                es.push((key, v));
                proof {
                    assert(es@.map_values(|e: (String, V)| (e.0@, e.1)) =~= s.push((key@, v)));
                    assert(seq_insert(s, key@, v) == s.push((key@, v)));
                }
                self.entries = es;
                proof {
                    assert(self@ =~= s.push((key@, v)));
                }
                None
            },
        }
    }

    /// Replaces the value at position `i`, keeping its key; returns the old value.
    pub fn replace_at(&mut self, i: usize, v: V) -> (old_v: V)
        requires
            i < old(self)@.len(),
        ensures
            final(self)@ == old(self)@.update(i as int, (old(self)@[i as int].0, v)),
            old_v == old(self)@[i as int].1,
            keys_unique(final(self)@),
    {
        proof {
            use_type_invariant(&*self);
        }
        let ghost s = self@;
        let mut es: Vec<(String, V)> = Vec::new();
        std::mem::swap(&mut es, &mut self.entries);
        let (k, old_v) = es.remove(i);
        es.insert(i, (k, v));
        proof {
            assert(es@.map_values(|e: (String, V)| (e.0@, e.1)) =~= s.update(i as int, (s[i as int].0, v)));
        }
        self.entries = es;
        proof {
            assert(self@ =~= s.update(i as int, (s[i as int].0, v)));
            assert forall|a: int, b: int|
                0 <= a < self@.len() && 0 <= b < self@.len() && a != b implies #[trigger] self@[a].0
                != #[trigger] self@[b].0 by {
                assert(s[a].0 != s[b].0);
            }
        }
        old_v
    }

    /// Removes the entry with key `key`; returns its value.
    pub fn remove(&mut self, key: &str) -> (old_v: Option<V>)
        ensures
            final(self)@ == seq_remove_key(old(self)@, key@),
            old_v == lookup(old(self)@, key@),
            keys_unique(final(self)@),
    {
        proof {
            use_type_invariant(&*self);
        }
        let ghost s = self@;
        proof {
            lemma_lookup_remove(s, key@, key@);
        }
        match self.find(key) {
            Some(i) => {
                let mut es: Vec<(String, V)> = Vec::new();
                std::mem::swap(&mut es, &mut self.entries);
                let (_k, v) = es.remove(i);
                proof {
                    assert(es@.map_values(|e: (String, V)| (e.0@, e.1)) =~= s.remove(i as int));
                    lemma_lookup_remove(s, key@, key@);
                }
                self.entries = es;
                proof {
                    assert(self@ =~= s.remove(i as int));
                    lemma_key_pos_unique(s, i as int);
                }
                Some(v)
            },
            None => None,
        }
    }

    /// The keys, in order.
    pub fn keys(&self) -> (r: Vec<String>)
        ensures
            r@.map_values(|k: String| k@) == seq_keys(self@),
    {
        let n = self.entries.len();
        let mut r: Vec<String> = Vec::new();
        let mut i: usize = 0;
        while i < n
            invariant
                n == self@.len(),
                n == self.entries@.len(),
                i <= n,
                r@.len() == i,
                forall|j: int| 0 <= j < i ==> #[trigger] r@[j]@ == self@[j].0,
            decreases n - i,
        {
            let k = self.entries[i].0.clone();
            r.push(k);
            i = i + 1;
        }
        assert(r@.map_values(|k: String| k@) =~= seq_keys(self@));
        r
    }
}

impl<V: Clone> Clone for KeyedVec<V> {
    fn clone(&self) -> (r: Self)
        ensures
            r@.len() == self@.len(),
            forall|i: int|
                0 <= i < self@.len() ==> #[trigger] r@[i].0 == self@[i].0 && cloned::<V>(
                    self@[i].1,
                    r@[i].1,
                ),
    {
        proof {
            use_type_invariant(self);
        }
        let n = self.entries.len();
        let mut es: Vec<(String, V)> = Vec::new();
        let mut i: usize = 0;
        while i < n
            invariant
                n == self@.len(),
                n == self.entries@.len(),
                keys_unique(self@),
                i <= n,
                es@.len() == i,
                forall|j: int|
                    0 <= j < i ==> #[trigger] es@[j].0@ == self@[j].0 && cloned::<V>(
                        self@[j].1,
                        es@[j].1,
                    ),
            decreases n - i,
        {
            let k = self.entries[i].0.clone();
            let v = self.entries[i].1.clone();
            es.push((k, v));
            i = i + 1;
        }
        let r = KeyedVec { entries: es };
        proof {
            assert forall|a: int, b: int|
                0 <= a < r@.len() && 0 <= b < r@.len() && a != b implies #[trigger] r@[a].0
                != #[trigger] r@[b].0 by {
                assert(self@[a].0 != self@[b].0);
            }
        }
        r
    }
}

/// Whether two texts are equal.
pub fn str_equal(a: &str, b: &str) -> (r: bool)
    ensures
        r == (a@ == b@),
{
    let n = a.unicode_len();
    let m = b.unicode_len();
    if n != m {
        return false;
    }
    let mut i: usize = 0;
    while i < n
        invariant
            n == a@.len(),
            m == b@.len(),
            n == m,
            i <= n,
            forall|j: int| 0 <= j < i ==> #[trigger] a@[j] == b@[j],
        decreases n - i,
    {
        if a.get_char(i) != b.get_char(i) {
            return false;
        }
        i = i + 1;
    }
    assert(a@ =~= b@);
    true
}

} // verus!
