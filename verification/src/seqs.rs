//! Facts about filtered sequences.

use vstd::prelude::*;

verus! {

/// Filtering a sequence that got one more element at its end keeps that
/// element exactly when it meets the predicate.
pub proof fn lemma_filter_push<A>(s: Seq<A>, x: A, pred: spec_fn(A) -> bool)
    ensures
        pred(x) ==> s.push(x).filter(pred) == s.filter(pred).push(x),
        !pred(x) ==> s.push(x).filter(pred) == s.filter(pred),
{
    reveal(Seq::filter);
    assert(s.push(x).drop_last() =~= s);
}

/// Nothing is left of an empty sequence.
pub proof fn lemma_filter_empty<A>(pred: spec_fn(A) -> bool)
    ensures
        Seq::<A>::empty().filter(pred) == Seq::<A>::empty(),
{
    reveal(Seq::filter);
}

/// Each element of a filtered sequence stands in the sequence that was filtered, meets the
/// predicate, and elements keep their order.
pub proof fn lemma_filter_origin<A>(s: Seq<A>, pred: spec_fn(A) -> bool, i: int, j: int)
    requires
        0 <= i < j < s.filter(pred).len(),
    ensures
        exists|a: int, b: int|
            0 <= a < b < s.len() && s[a] == s.filter(pred)[i] && s[b] == s.filter(pred)[j]
                && pred(s[a]) && pred(s[b]),
    decreases s.len(),
{
    reveal(Seq::filter);
    if s.len() > 0 {
        let rest = s.drop_last();
        let kept = rest.filter(pred);
        if pred(s.last()) && j == kept.len() {
            lemma_filter_member(rest, pred, i);
            let a = choose|a: int| 0 <= a < rest.len() && rest[a] == kept[i] && pred(rest[a]);
            assert(s[a] == s.filter(pred)[i]);
            assert(s[s.len() - 1] == s.filter(pred)[j]);
        } else {
            lemma_filter_origin(rest, pred, i, j);
            let (a, b) = choose|a: int, b: int|
                0 <= a < b < rest.len() && rest[a] == kept[i] && rest[b] == kept[j] && pred(
                    rest[a],
                ) && pred(rest[b]);
            assert(s[a] == s.filter(pred)[i] && s[b] == s.filter(pred)[j]);
        }
    }
}

/// Each element of a filtered sequence stands in the sequence that was filtered and meets the
/// predicate.
pub proof fn lemma_filter_member<A>(s: Seq<A>, pred: spec_fn(A) -> bool, i: int)
    requires
        0 <= i < s.filter(pred).len(),
    ensures
        exists|a: int| 0 <= a < s.len() && s[a] == s.filter(pred)[i] && pred(s[a]),
    decreases s.len(),
{
    reveal(Seq::filter);
    if s.len() > 0 {
        let rest = s.drop_last();
        let kept = rest.filter(pred);
        if pred(s.last()) && i == kept.len() {
            assert(s[s.len() - 1] == s.filter(pred)[i]);
        } else {
            lemma_filter_member(rest, pred, i);
            let a = choose|a: int| 0 <= a < rest.len() && rest[a] == kept[i] && pred(rest[a]);
            assert(s[a] == s.filter(pred)[i]);
        }
    }
}

/// Each element that meets the predicate stands in the
/// filtered sequence.
pub proof fn lemma_filter_keeps<A>(s: Seq<A>, pred: spec_fn(A) -> bool, a: int)
    requires
        0 <= a < s.len(),
        pred(s[a]),
    ensures
        s.filter(pred).contains(s[a]),
    decreases s.len(),
{
    reveal(Seq::filter);
    let rest = s.drop_last();
    let kept = rest.filter(pred);
    if a == s.len() - 1 {
        assert(s.filter(pred)[kept.len() as int] == s[a]);
    } else {
        lemma_filter_keeps(rest, pred, a);
        let i = choose|i: int| 0 <= i < kept.len() && kept[i] == rest[a];
        assert(s.filter(pred)[i] == s[a]);
    }
}

/// The elements that meet a predicate and those that do not are all the
/// elements.
pub proof fn lemma_filter_partition<A>(s: Seq<A>, pred: spec_fn(A) -> bool)
    ensures
        s.filter(pred).len() + s.filter(|x: A| !pred(x)).len() == s.len(),
    decreases s.len(),
{
    reveal(Seq::filter);
    if s.len() > 0 {
        lemma_filter_partition(s.drop_last(), pred);
    }
}

} // verus!
