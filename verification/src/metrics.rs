use vstd::prelude::*;
use vstd::string::*;

verus! {

/// One label written `key=value`.
pub open spec fn label_text(l: (Seq<char>, Seq<char>)) -> Seq<char> {
    l.0 + "="@ + l.1
}

/// The labels written `key=value` and joined by commas.
pub open spec fn labels_text(labels: Seq<(Seq<char>, Seq<char>)>) -> Seq<char>
    decreases labels.len(),
{
    if labels.len() == 0 {
        Seq::empty()
    } else if labels.len() == 1 {
        label_text(labels[0])
    } else {
        labels_text(labels.drop_last()) + ","@ + label_text(labels.last())
    }
}

/// The key under which a metric with these labels is kept:
/// `name[k1=v1,k2=v2]`.
pub open spec fn metric_key_spec(name: Seq<char>, labels: Seq<(Seq<char>, Seq<char>)>) -> Seq<char> {
    name + "["@ + labels_text(labels) + "]"@
}

/// The labels as text pairs.
pub open spec fn label_views(labels: Seq<(&str, &str)>) -> Seq<(Seq<char>, Seq<char>)> {
    labels.map_values(|l: (&str, &str)| (l.0@, l.1@))
}

/// The key under which a metric named `name` with `labels` is kept.
pub fn metric_key(name: &str, labels: &Vec<(&str, &str)>) -> (r: String)
    ensures
        r@ == metric_key_spec(name@, label_views(labels@)),
{
    let ghost ls = label_views(labels@);
    let mut s = String::from_str(name);
    s.append("[");
    let n = labels.len();
    let mut i: usize = 0;
    proof {
        assert(ls.take(0) =~= Seq::<(Seq<char>, Seq<char>)>::empty());
        assert(s@ == name@ + "["@ + labels_text(ls.take(0)));
    }
    while i < n
        invariant
            n == labels@.len(),
            ls == label_views(labels@),
            i <= n,
            s@ == name@ + "["@ + labels_text(ls.take(i as int)),
        decreases n - i,
    {
        let (k, v) = labels[i];
        let ghost before = s@;
        if i > 0 {
            s.append(",");
        }
        s.append(k);
        s.append("=");
        s.append(v);
        proof {
            let t = ls.take(i + 1);
            assert(t.drop_last() =~= ls.take(i as int));
            assert(t.last() == (k@, v@));
            if i == 0 {
                assert(t.len() == 1);
                assert(t[0] == (k@, v@));
                assert(s@ =~= name@ + "["@ + labels_text(t));
            } else {
                assert(s@ =~= name@ + "["@ + labels_text(t));
            }
        }
        i = i + 1;
    }
    s.append("]");
    proof {
        assert(ls.take(n as int) =~= ls);
    }
    s
}

} // verus!
