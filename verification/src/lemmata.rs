//! Facts about sequences that several modules use.

use vstd::prelude::*;

verus! {

/// Filtering a prefix one element longer adds that element exactly when it
/// passes the predicate.
pub(crate) proof fn lemma_filter_take_step<A>(s: Seq<A>, p: spec_fn(A) -> bool, i: int)
    requires
        0 <= i < s.len(),
    ensures
        s.take(i + 1).filter(p) == if p(s[i]) {
            s.take(i).filter(p).push(s[i])
        } else {
            s.take(i).filter(p)
        },
{
    reveal(Seq::filter);
    assert(s.take(i + 1).drop_last() =~= s.take(i));
}

/// Filtering a sequence none of whose elements passes gives nothing.
pub(crate) proof fn lemma_filter_none<A>(s: Seq<A>, p: spec_fn(A) -> bool)
    requires
        forall|i: int| 0 <= i < s.len() ==> !p(#[trigger] s[i]),
    ensures
        s.filter(p) == Seq::<A>::empty(),
    decreases s.len(),
{
    reveal(Seq::filter);
    if s.len() > 0 {
        lemma_filter_none(s.drop_last(), p);
        assert(!p(s[s.len() - 1]));
    }
    assert(s.filter(p) =~= Seq::<A>::empty());
}

/// Filtering a sequence all of whose elements pass gives it back.
pub(crate) proof fn lemma_filter_all<A>(s: Seq<A>, p: spec_fn(A) -> bool)
    requires
        forall|i: int| 0 <= i < s.len() ==> p(#[trigger] s[i]),
    ensures
        s.filter(p) == s,
    decreases s.len(),
{
    reveal(Seq::filter);
    if s.len() > 0 {
        lemma_filter_all(s.drop_last(), p);
        assert(p(s[s.len() - 1]));
        assert(s.drop_last().push(s.last()) =~= s);
    }
    assert(s.filter(p) =~= s);
}

/// Filtering the sequence that inserts `x` at position `j`.
pub(crate) proof fn lemma_filter_insert<A>(s: Seq<A>, p: spec_fn(A) -> bool, j: int, x: A)
    requires
        0 <= j <= s.len(),
    ensures
        s.insert(j, x).filter(p) == s.take(j).filter(p) + seq![x].filter(p) + s.skip(j).filter(p),
        s.filter(p) == s.take(j).filter(p) + s.skip(j).filter(p),
{
    assert(s.insert(j, x) =~= s.take(j) + seq![x] + s.skip(j));
    assert(s =~= s.take(j) + s.skip(j));
    Seq::filter_distributes_over_add(s.take(j) + seq![x], s.skip(j), p);
    Seq::filter_distributes_over_add(s.take(j), seq![x], p);
    Seq::filter_distributes_over_add(s.take(j), s.skip(j), p);
}

/// Filtering a one-element sequence.
pub(crate) proof fn lemma_filter_single<A>(x: A, p: spec_fn(A) -> bool)
    ensures
        seq![x].filter(p) == if p(x) {
            seq![x]
        } else {
            Seq::<A>::empty()
        },
{
    reveal_with_fuel(Seq::filter, 2);
    assert(seq![x].drop_last() =~= Seq::<A>::empty());
    assert(Seq::<A>::empty().push(x) =~= seq![x]);
}

} // verus!
