use vstd::prelude::*;

verus! {

/// The items of `s` that satisfy `p`, in their order.
pub open spec fn select<T>(s: Seq<T>, p: spec_fn(T) -> bool) -> Seq<T>
    decreases s.len(),
{
    if s.len() == 0 {
        Seq::empty()
    } else {
        let r = select(s.drop_last(), p);
        if p(s.last()) {
            r.push(s.last())
        } else {
            r
        }
    }
}

/// The first `n` items of `s`, or all of them when there are fewer.
pub open spec fn at_most<T>(s: Seq<T>, n: int) -> Seq<T> {
    if 0 <= n < s.len() {
        s.take(n)
    } else {
        s
    }
}

/// The last `n` items of `s`, or all of them when there are fewer.
pub open spec fn last_at_most<T>(s: Seq<T>, n: int) -> Seq<T> {
    if 0 <= n < s.len() {
        s.skip(s.len() - n)
    } else {
        s
    }
}

/// Selecting from one more item of `s`.
pub proof fn lemma_select_step<T>(s: Seq<T>, p: spec_fn(T) -> bool, i: int)
    requires
        0 <= i < s.len(),
    ensures
        select(s.take(i + 1), p) == (if p(s[i]) {
            select(s.take(i), p).push(s[i])
        } else {
            select(s.take(i), p)
        }),
{
    assert(s.take(i + 1).drop_last() =~= s.take(i));
    assert(s.take(i + 1).last() == s[i]);
}

/// What is selected from a prefix of `s` is a prefix of what is selected
/// from a longer one.
pub proof fn lemma_select_prefix<T>(s: Seq<T>, p: spec_fn(T) -> bool, i: int, j: int)
    requires
        0 <= i <= j <= s.len(),
    ensures
        select(s.take(i), p).len() <= select(s.take(j), p).len(),
        select(s.take(j), p).take(select(s.take(i), p).len() as int) == select(s.take(i), p),
    decreases j - i,
{
    if i == j {
        assert(select(s.take(j), p).take(select(s.take(i), p).len() as int) =~= select(
            s.take(i),
            p,
        ));
    } else {
        lemma_select_prefix(s, p, i, j - 1);
        lemma_select_step(s, p, j - 1);
        let a = select(s.take(i), p);
        let b = select(s.take(j - 1), p);
        let c = select(s.take(j), p);
        assert(c.take(a.len() as int) =~= b.take(a.len() as int));
    }
}

} // verus!
