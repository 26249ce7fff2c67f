//! Monadic operations over quantitative values.

use vstd::prelude::*;

use super::multiplicitas::{Omega, Usage};
use super::qtt::Qtt;

verus! {

/// A newtype over `Qtt` for monadic chaining that preserves the multiplicity.
pub struct QttMonad<A, M: Usage> {
    value: Qtt<A, M>,
}

impl<A, M: Usage> View for QttMonad<A, M> {
    type V = A;

    /// The value carried by the computation.
    closed spec fn view(&self) -> A {
        self.value@
    }
}

impl<A, M: Usage> QttMonad<A, M> {
    /// Wrap a value.
    pub fn purus(value: A) -> (r: Self)
        ensures
            r@ == value,
    {
        QttMonad { value: Qtt::new(value) }
    }

    /// Wrap an existing `Qtt`.
    pub fn from_qtt(qtt: Qtt<A, M>) -> (r: Self)
        ensures
            r@ == qtt@,
    {
        QttMonad { value: qtt }
    }

    /// Run the computation, extracting the value.
    pub fn run(self) -> (r: A)
        ensures
            r == self@,
    {
        self.value.consume()
    }

    /// Convert back to a `Qtt`.
    pub fn into_qtt(self) -> (r: Qtt<A, M>)
        ensures
            r@ == self@,
    {
        self.value
    }

    /// Map a function over the value.
    pub fn map<B, F>(self, f: F) -> (r: QttMonad<B, M>) where F: FnOnce(A) -> B
        requires
            f.requires((self@,)),
        ensures
            f.ensures((self@,), r@),
    {
        QttMonad { value: self.value.fmap(f) }
    }

    /// Monadic bind.
    pub fn flat_map<B, F>(self, f: F) -> (r: QttMonad<B, M>) where F: FnOnce(A) -> QttMonad<B, M>
        requires
            f.requires((self@,)),
        ensures
            f.ensures((self@,), r),
    {
        f(self.value.consume())
    }

    /// Sequence, discarding the first value.
    pub fn then<B>(self, other: QttMonad<B, M>) -> (r: QttMonad<B, M>)
        ensures
            r == other,
    {
        let _ = self.value.consume();
        other
    }

    /// Applicative apply: the function inside `mf` is applied to the value.
    pub fn ap<B, F>(self, mf: QttMonad<F, M>) -> (r: QttMonad<B, M>) where F: FnOnce(A) -> B
        requires
            mf@.requires((self@,)),
        ensures
            mf@.ensures((self@,), r@),
    {
        let f = mf.value.consume();
        QttMonad { value: Qtt::new(f(self.value.consume())) }
    }
}

impl<A: Clone> QttMonad<A, Omega> {
    /// Duplicate the computation (unrestricted values only: those are the
    /// ones whose `Qtt` can be cloned).
    pub fn dup(&self) -> (r: QttMonad<A, Omega>)
        ensures
            cloned(self@, r@),
    {
        QttMonad { value: self.value.clone() }
    }
}

/// Monadic unit for `Qtt`.
pub fn purus_qtt<A, M: Usage>(value: A) -> (r: Qtt<A, M>)
    ensures
        r@ == value,
{
    Qtt::new(value)
}

/// Monadic bind for `Qtt`.
pub fn bind_qtt<A, B, M: Usage, F>(qtt: Qtt<A, M>, f: F) -> (r: Qtt<B, M>) where
    F: FnOnce(A) -> Qtt<B, M>,

    requires
        f.requires((qtt@,)),
    ensures
        f.ensures((qtt@,), r),
{
    f(qtt.consume())
}

/// The values of a sequence of `Qtt`s.
pub open spec fn values_of<A, M: Usage>(qts: Seq<Qtt<A, M>>) -> Seq<A> {
    qts.map_values(|q: Qtt<A, M>| q@)
}

/// Sequence a vector of `Qtt`s into a `Qtt` of the vector of their values.
pub fn sequence_qtt<A, M: Usage>(qts: Vec<Qtt<A, M>>) -> (r: Qtt<Vec<A>, M>)
    ensures
        r@@ == values_of(qts@),
{
    let mut values: Vec<A> = Vec::with_capacity(qts.len());
    let ghost all = qts@;
    for q in it: qts
        invariant
            it.seq() == all,
            values@ == values_of(all.take(it.index() as int)),
    {
        proof {
            assert(all.take(it.index() + 1) == all.take(it.index() as int).push(q));
        }
        values.push(q.consume());
    }
    proof {
        assert(all.take(all.len() as int) == all);
    }
    Qtt::new(values)
}

/// `b` is the value of a `Qtt` that `f` may return for `a`.
pub open spec fn traversed_by<A, B, M: Usage, F: Fn(A) -> Qtt<B, M>>(f: F, a: A, b: B) -> bool {
    exists|q: Qtt<B, M>| f.ensures((a,), q) && q@ == b
}

/// Apply `f` to each item and sequence the results.
pub fn traverse_qtt<A, B, M: Usage, F>(items: Vec<A>, f: F) -> (r: Qtt<Vec<B>, M>) where
    F: Fn(A) -> Qtt<B, M>,

    requires
        forall|i: int| 0 <= i < items.len() ==> f.requires((#[trigger] items@[i],)),
    ensures
        r@.len() == items.len(),
        forall|i: int|
            0 <= i < items.len() ==> #[trigger] traversed_by(f, items@[i], r@@[i]),
{
    let mut values: Vec<B> = Vec::with_capacity(items.len());
    let ghost all = items@;
    let ghost mut outs: Seq<Qtt<B, M>> = Seq::empty();
    for a in it: items
        invariant
            it.seq() == all,
            forall|i: int| 0 <= i < all.len() ==> f.requires((#[trigger] all[i],)),
            values.len() == it.index(),
            outs.len() == values.len(),
            forall|i: int|
                0 <= i < values.len() ==> f.ensures((all[i],), #[trigger] outs[i]) && outs[i]@
                    == values@[i],
    {
        let fq = f(a);
        proof {
            outs = outs.push(fq);
        }
        let b = fq.consume();
        values.push(b);
    }
    let r = Qtt::new(values);
    assert forall|i: int| 0 <= i < all.len() implies #[trigger] traversed_by(f, all[i], r@@[i]) by {
        assert(f.ensures((all[i],), outs[i]) && outs[i]@ == r@@[i]);
    }
    r
}

/// Flatten a nested `Qtt`.
pub fn join_qtt<A, M: Usage>(nested: Qtt<Qtt<A, M>, M>) -> (r: Qtt<A, M>)
    ensures
        r == nested@,
{
    nested.consume()
}

/// Kleisli composition: `f` then `g`.
pub fn kleisli_qtt<A, B, C, M: Usage, F, G>(f: F, g: G) -> (r: impl FnOnce(A) -> Qtt<C, M>) where
    F: FnOnce(A) -> Qtt<B, M>,
    G: FnOnce(B) -> Qtt<C, M>,

    ensures
        forall|a: A|
            f.requires((a,)) && (forall|q: Qtt<B, M>| f.ensures((a,), q) ==> g.requires((q@,)))
                ==> #[trigger] r.requires((a,)),
        forall|a: A, c: Qtt<C, M>| #[trigger]
            r.ensures((a,), c) ==> exists|q: Qtt<B, M>| f.ensures((a,), q) && g.ensures((q@,), c),
{
    move |a: A| -> (c: Qtt<C, M>)
        requires
            f.requires((a,)),
            forall|q: Qtt<B, M>| f.ensures((a,), q) ==> g.requires((q@,)),
        ensures
            exists|q: Qtt<B, M>| f.ensures((a,), q) && g.ensures((q@,), c),
        {
            let q = f(a);
            let ghost gq = q;
            let b = q.consume();
            let c = g(b);
            proof {
                assert(f.ensures((a,), gq) && g.ensures((gq@,), c));
            }
            c
        }
}

/// Combine two `Qtt`s with a binary function.
pub fn map2_qtt<A, B, C, M: Usage, F>(qa: Qtt<A, M>, qb: Qtt<B, M>, f: F) -> (r: Qtt<C, M>) where
    F: FnOnce(A, B) -> C,

    requires
        f.requires((qa@, qb@)),
    ensures
        f.ensures((qa@, qb@), r@),
{
    let a = qa.consume();
    let b = qb.consume();
    Qtt::new(f(a, b))
}

/// Combine three `Qtt`s with a ternary function.
pub fn map3_qtt<A, B, C, D, M: Usage, F>(
    qa: Qtt<A, M>,
    qb: Qtt<B, M>,
    qc: Qtt<C, M>,
    f: F,
) -> (r: Qtt<D, M>) where F: FnOnce(A, B, C) -> D
    requires
        f.requires((qa@, qb@, qc@)),
    ensures
        f.ensures((qa@, qb@, qc@), r@),
{
    let a = qa.consume();
    let b = qb.consume();
    let c = qc.consume();
    Qtt::new(f(a, b, c))
}

/// Lift a binary function to work on `Qtt`s.
pub fn lift2_qtt<A, B, C, M: Usage, F>(f: F) -> (r: impl FnOnce(Qtt<A, M>, Qtt<B, M>) -> Qtt<C, M>) where
    F: FnOnce(A, B) -> C,

    ensures
        forall|qa: Qtt<A, M>, qb: Qtt<B, M>|
            f.requires((qa@, qb@)) ==> #[trigger] r.requires((qa, qb)),
        forall|qa: Qtt<A, M>, qb: Qtt<B, M>, qc: Qtt<C, M>| #[trigger]
            r.ensures((qa, qb), qc) ==> f.ensures((qa@, qb@), qc@),
{
    move |qa: Qtt<A, M>, qb: Qtt<B, M>| -> (qc: Qtt<C, M>)
        requires
            f.requires((qa@, qb@)),
        ensures
            f.ensures((qa@, qb@), qc@),
        { map2_qtt(qa, qb, f) }
}

/// Left identity: binding a freshly wrapped value `p` (what `purus(a)`
/// returns) to `f` relates it to exactly the results of `f(a)`.
pub proof fn law_left_identity<A, B, M: Usage, F>(a: A, p: Qtt<A, M>, f: F, r: Qtt<B, M>) where
    F: FnOnce(A) -> Qtt<B, M>,

    requires
        p@ == a,
    ensures
        f.ensures((p@,), r) <==> f.ensures((a,), r),
        f.requires((p@,)) <==> f.requires((a,)),
{
}

/// Right identity: binding `m` to the unit gives back `m` itself, since a
/// `Qtt` is determined by the value it carries.
pub proof fn law_right_identity<A, M: Usage>(m: Qtt<A, M>, r: Qtt<A, M>)
    requires
        r@ == m@,
    ensures
        r == m,
{
    Qtt::lemma_view_determines(m, r);
}

/// Associativity: binding `m` to `f` and then to `g` reaches the same results
/// as binding `m` to the Kleisli composite `k` of `f` and `g`.
pub proof fn law_associativity<A, B, C, M: Usage, F, G, K>(m: Qtt<A, M>, f: F, g: G, k: K, r: Qtt<C, M>) where
    F: FnOnce(A) -> Qtt<B, M>,
    G: FnOnce(B) -> Qtt<C, M>,
    K: FnOnce(A) -> Qtt<C, M>,

    requires
        forall|a: A, c: Qtt<C, M>| #[trigger]
            k.ensures((a,), c) <==> exists|q: Qtt<B, M>| f.ensures((a,), q) && g.ensures((q@,), c),
    ensures
        (exists|q: Qtt<B, M>| f.ensures((m@,), q) && g.ensures((q@,), r)) <==> k.ensures((m@,), r),
{
}

} // verus!
