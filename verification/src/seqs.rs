//! Facts about sequences used across the library.
use vstd::prelude::*;

verus! {

/// Filtering a sequence extended by one element.
pub proof fn lemma_filter_push<A>(s: Seq<A>, pred: spec_fn(A) -> bool, e: A)
    ensures
        s.push(e).filter(pred) == if pred(e) {
            s.filter(pred).push(e)
        } else {
            s.filter(pred)
        },
{
    reveal(Seq::filter);
    assert(s.push(e).drop_last() =~= s);
}

/// Filtering a prefix gives a prefix of the filtered sequence.
pub proof fn lemma_filter_prefix<A>(s: Seq<A>, pred: spec_fn(A) -> bool, n: int)
    requires
        0 <= n <= s.len(),
    ensures
        forall|k: int|
            0 <= k < s.take(n).filter(pred).len() ==> s.filter(pred)[k] == s.take(n).filter(pred)[k],
        s.take(n).filter(pred).len() <= s.filter(pred).len(),
    decreases s.len() - n,
{
    if n < s.len() {
        lemma_filter_prefix(s, pred, n + 1);
        assert(s.take(n + 1) =~= s.take(n).push(s[n]));
        lemma_filter_push(s.take(n), pred, s[n]);
    } else {
        assert(s.take(n) =~= s);
    }
}

/// Every element of a filtered sequence satisfies the predicate and occurs
/// in the sequence.
pub proof fn lemma_filter_members<A>(s: Seq<A>, pred: spec_fn(A) -> bool)
    ensures
        forall|i: int| 0 <= i < s.filter(pred).len() ==> pred(#[trigger] s.filter(pred)[i]),
        forall|i: int| 0 <= i < s.filter(pred).len() ==> s.contains(#[trigger] s.filter(pred)[i]),
{
    broadcast use vstd::seq_lib::group_filter_ensures;

    assert forall|i: int| 0 <= i < s.filter(pred).len() implies s.contains(#[trigger] s.filter(pred)[i]) by {
        assert(s.filter(pred).contains(s.filter(pred)[i]));
        s.lemma_filter_contains_rev(pred, s.filter(pred)[i]);
    }
}

} // verus!
