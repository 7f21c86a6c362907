//! Stored lists: membership and removal of every copy of an item.

use vstd::prelude::*;

use crate::table::LedgerKey;

verus! {

/// `s` with every occurrence of `x` taken out, the rest in order.
pub open spec fn without<A>(s: Seq<A>, x: A) -> Seq<A>
    decreases s.len(),
{
    if s.len() == 0 {
        s
    } else if s.last() == x {
        without(s.drop_last(), x)
    } else {
        without(s.drop_last(), x).push(s.last())
    }
}

/// Nothing equal to `x` is left, and everything else that is left was there.
pub proof fn lemma_without_contents<A>(s: Seq<A>, x: A)
    ensures
        !without(s, x).contains(x),
        forall|y: A| y != x ==> (#[trigger] without(s, x).contains(y) <==> s.contains(y)),
        without(s, x).len() <= s.len(),
    decreases s.len(),
{
    if s.len() > 0 {
        let t = s.drop_last();
        let l = s.last();
        let w = without(t, x);
        lemma_without_contents(t, x);
        assert(s =~= t.push(l));
        lemma_push_contains(t, l);
        if l != x {
            lemma_push_contains(w, l);
        }
    }
}

/// Membership in a list with one more item at the end.
proof fn lemma_push_contains<A>(s: Seq<A>, v: A)
    ensures
        forall|y: A| #[trigger] s.push(v).contains(y) <==> (s.contains(y) || y == v),
{
    assert forall|y: A| #[trigger] s.push(v).contains(y) <==> (s.contains(y) || y == v) by {
        if s.contains(y) {
            let i = choose|i: int| 0 <= i < s.len() && s[i] == y;
            assert(s.push(v)[i] == y);
        }
        if y == v {
            assert(s.push(v)[s.len() as int] == y);
        }
        if s.push(v).contains(y) {
            let i = choose|i: int| 0 <= i < s.len() + 1 && s.push(v)[i] == y;
            if i < s.len() {
                assert(s[i] == y);
            }
        }
    }
}

/// A list without `x` is left as it is.
pub proof fn lemma_without_absent<A>(s: Seq<A>, x: A)
    requires
        !s.contains(x),
    ensures
        without(s, x) == s,
    decreases s.len(),
{
    if s.len() > 0 {
        let t = s.drop_last();
        assert(s[s.len() - 1] != x);
        assert forall|i: int| 0 <= i < t.len() implies t[i] != x by {
            assert(t[i] == s[i]);
        }
        lemma_without_absent(t, x);
        assert(t.push(s.last()) =~= s);
    }
}

/// Taking `x` out of a list that ends with `x` forgets that last item.
pub proof fn lemma_without_push<A>(s: Seq<A>, x: A)
    ensures
        without(s.push(x), x) == without(s, x),
{
    assert(s.push(x).drop_last() =~= s);
}

/// Whether `items` holds an item with the model of `x`.
pub fn contains_item<T: LedgerKey>(items: &Vec<T>, x: &T) -> (r: bool)
    ensures
        r == items.deep_view().contains(x.deep_view()),
{
    let n = items.len();
    for i in 0..n
        invariant
            n == items.len(),
            forall|j: int| 0 <= j < i ==> items.deep_view()[j] != x.deep_view(),
    {
        if items[i].same_key(x) {
            assert(items.deep_view()[i as int] == x.deep_view());
            return true;
        }
    }
    false
}

/// The items of `items` other than `x`, in order, and whether any was `x`.
pub fn without_item<T: LedgerKey>(items: &Vec<T>, x: &T) -> (r: (Vec<T>, bool))
    ensures
        r.0.deep_view() == without(items.deep_view(), x.deep_view()),
        r.1 == items.deep_view().contains(x.deep_view()),
{
    let ghost s = items.deep_view();
    let mut kept: Vec<T> = Vec::new();
    let mut found = false;
    let n = items.len();
    for i in 0..n
        invariant
            n == items.len(),
            s == items.deep_view(),
            kept.deep_view() == without(s.take(i as int), x.deep_view()),
            found == s.take(i as int).contains(x.deep_view()),
    {
        proof {
            assert(s.take(i + 1).drop_last() =~= s.take(i as int));
            assert(s.take(i + 1).last() == s[i as int]);
        }
        let ghost before = kept.deep_view();
        if items[i].same_key(x) {
            found = true;
            proof {
                assert(s.take(i + 1)[i as int] == x.deep_view());
            }
        } else {
            kept.push(items[i].duplicate());
            proof {
                assert(kept.deep_view() =~= before.push(s[i as int]));
                if s.take(i + 1).contains(x.deep_view()) {
                    let j = choose|j: int| 0 <= j < i + 1 && #[trigger] s.take(i + 1)[j] == x.deep_view();
                    assert(s.take(i as int)[j] == x.deep_view());
                }
            }
        }
        proof {
            if s.take(i as int).contains(x.deep_view()) {
                let j = choose|j: int| 0 <= j < i && #[trigger] s.take(i as int)[j] == x.deep_view();
                assert(s.take(i + 1)[j] == x.deep_view());
            }
        }
    }
    proof {
        assert(s.take(n as int) =~= s);
    }
    (kept, found)
}

} // verus!
