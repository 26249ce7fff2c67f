//! Linear functions (`A ⊸ B`): functions that are called exactly once.

use vstd::prelude::*;
use crate::actio::{ActioSemel, Involucrum};

verus! {

/// A linear function that must be called exactly once.
///
/// In linear logic `A ⊸ B` is a function that consumes its argument to
/// produce a result. `apply` consumes the function.
#[verifier::reject_recursive_types(A)]
#[verifier::reject_recursive_types(B)]
pub struct FunctioLinearis<A, B> {
    f: Box<dyn ActioSemel<A, B>>,
}

impl<A, B> FunctioLinearis<A, B> {
    /// The precondition of the wrapped function at `a`.
    pub closed spec fn pre(&self, a: A) -> bool {
        self.f.pre(a)
    }

    /// The postcondition of the wrapped function: `b` may be its result at `a`.
    pub closed spec fn post(&self, a: A, b: B) -> bool {
        self.f.post(a, b)
    }

    /// Apply the linear function to an argument, consuming the function.
    pub fn apply(self, a: A) -> (b: B)
        requires
            self.pre(a),
        ensures
            self.post(a, b),
    {
        self.f.invoke_once(a)
    }
}

impl<A: 'static, B: 'static> FunctioLinearis<A, B> {
    /// Create a new linear function from a closure.
    pub fn new<F>(f: F) -> (r: Self) where F: FnOnce(A) -> B + 'static
        ensures
            forall|a: A| #[trigger] r.pre(a) == f.requires((a,)),
            forall|a: A, b: B| #[trigger] r.post(a, b) == f.ensures((a,), b),
    {
        FunctioLinearis { f: Box::new(Involucrum(f)) }
    }

    /// Compose two linear functions: `self` is applied first, then `g`.
    pub fn compose<C: 'static>(self, g: FunctioLinearis<B, C>) -> (r: FunctioLinearis<A, C>)
        ensures
            forall|a: A|
                self.pre(a) && (forall|b: B| self.post(a, b) ==> g.pre(b)) ==> #[trigger] r.pre(a),
            forall|a: A, c: C| #[trigger]
                r.post(a, c) ==> exists|b: B| self.post(a, b) && g.post(b, c),
    {
        let f = self;
        let h = move |a: A| -> (c: C)
            requires
                f.pre(a),
                forall|b: B| f.post(a, b) ==> g.pre(b),
            ensures
                exists|b: B| f.post(a, b) && g.post(b, c),
            {
                let b = f.apply(a);
                g.apply(b)
            };
        FunctioLinearis::new(h)
    }

    /// Compose in application order: `self` first, then `g` (same as `compose`).
    pub fn and_then<C: 'static>(self, g: FunctioLinearis<B, C>) -> (r: FunctioLinearis<A, C>)
        ensures
            forall|a: A|
                self.pre(a) && (forall|b: B| self.post(a, b) ==> g.pre(b)) ==> #[trigger] r.pre(a),
            forall|a: A, c: C| #[trigger]
                r.post(a, c) ==> exists|b: B| self.post(a, b) && g.post(b, c),
    {
        self.compose(g)
    }

    /// Map over the output of the function.
    pub fn map_output<C: 'static, F>(self, f: F) -> (r: FunctioLinearis<A, C>) where
        F: FnOnce(B) -> C + 'static,

        ensures
            forall|a: A|
                self.pre(a) && (forall|b: B| self.post(a, b) ==> f.requires((b,)))
                    ==> #[trigger] r.pre(a),
            forall|a: A, c: C| #[trigger]
                r.post(a, c) ==> exists|b: B| self.post(a, b) && f.ensures((b,), c),
    {
        let s = self;
        let h = move |a: A| -> (c: C)
            requires
                s.pre(a),
                forall|b: B| s.post(a, b) ==> f.requires((b,)),
            ensures
                exists|b: B| s.post(a, b) && f.ensures((b,), c),
            {
                let b = s.apply(a);
                f(b)
            };
        FunctioLinearis::new(h)
    }

    /// Contramap over the input of the function: `f` is applied first.
    pub fn contramap_input<Z: 'static, F>(self, f: F) -> (r: FunctioLinearis<Z, B>) where
        F: FnOnce(Z) -> A + 'static,

        ensures
            forall|z: Z|
                f.requires((z,)) && (forall|a: A| f.ensures((z,), a) ==> self.pre(a))
                    ==> #[trigger] r.pre(z),
            forall|z: Z, b: B| #[trigger]
                r.post(z, b) ==> exists|a: A| f.ensures((z,), a) && self.post(a, b),
    {
        let s = self;
        let h = move |z: Z| -> (b: B)
            requires
                f.requires((z,)),
                forall|a: A| f.ensures((z,), a) ==> s.pre(a),
            ensures
                exists|a: A| f.ensures((z,), a) && s.post(a, b),
            {
                let a = f(z);
                s.apply(a)
            };
        FunctioLinearis::new(h)
    }
}

impl<A: 'static> FunctioLinearis<A, A> {
    /// The identity linear function.
    pub fn identity() -> (r: Self)
        ensures
            forall|a: A| #[trigger] r.pre(a),
            forall|a: A, b: A| #[trigger] r.post(a, b) ==> b == a,
    {
        FunctioLinearis::new(|a: A| -> (b: A) ensures b == a { a })
    }
}

/// Type alias emphasizing the linear (once) nature of the function.
pub type FunctioSemel<A, B> = FunctioLinearis<A, B>;

/// Apply a linear function to a value.
pub fn linear_apply<A, B>(f: FunctioLinearis<A, B>, a: A) -> (b: B)
    requires
        f.pre(a),
    ensures
        f.post(a, b),
{
    f.apply(a)
}

/// Compose two linear functions (`g` after `f`).
pub fn linear_compose<A: 'static, B: 'static, C: 'static>(
    f: FunctioLinearis<A, B>,
    g: FunctioLinearis<B, C>,
) -> (r: FunctioLinearis<A, C>)
    ensures
        forall|a: A|
            f.pre(a) && (forall|b: B| f.post(a, b) ==> g.pre(b)) ==> #[trigger] r.pre(a),
        forall|a: A, c: C| #[trigger] r.post(a, c) ==> exists|b: B| f.post(a, b) && g.post(b, c),
{
    f.compose(g)
}

/// Flip the arguments of a curried linear function:
/// `A ⊸ (B ⊸ C)` becomes `B ⊸ (A ⊸ C)`.
pub fn linear_flip<A: 'static, B: 'static, C: 'static>(
    f: FunctioLinearis<A, FunctioLinearis<B, C>>,
) -> (r: FunctioLinearis<B, FunctioLinearis<A, C>>)
    ensures
        forall|b: B| #[trigger] r.pre(b),
        forall|b: B, inner| #[trigger] r.post(b, inner) ==> flipped_inner(f, b, inner),
{
    let outer = move |b: B| -> (inner: FunctioLinearis<A, C>)
        ensures
            flipped_inner(f, b, inner),
        {
            let h = move |a: A| -> (c: C)
                requires
                    f.pre(a),
                    forall|g| f.post(a, g) ==> g.pre(b),
                ensures
                    exists|g| f.post(a, g) && g.post(b, c),
                {
                    let inner: FunctioLinearis<B, C> = f.apply(a);
                    inner.apply(b)
                };
            FunctioLinearis::new(h)
        };
    FunctioLinearis::new(outer)
}

/// What `linear_flip` promises of the function it returns for `b`: it runs
/// `f` on its argument, then the resulting function on `b`.
pub open spec fn flipped_inner<A, B, C>(
    f: FunctioLinearis<A, FunctioLinearis<B, C>>,
    b: B,
    inner: FunctioLinearis<A, C>,
) -> bool {
    &&& forall|a: A|
        f.pre(a) && (forall|g| f.post(a, g) ==> g.pre(b)) ==> #[trigger] inner.pre(a)
    &&& forall|a: A, c: C| #[trigger] inner.post(a, c) ==> exists|g| f.post(a, g) && g.post(b, c)
}

/// A constant linear function: ignores its argument and returns `b`.
pub fn linear_const<A: 'static, B: 'static>(b: B) -> (r: FunctioLinearis<A, B>)
    ensures
        forall|a: A| #[trigger] r.pre(a),
        forall|a: A, c: B| #[trigger] r.post(a, c) ==> c == b,
{
    FunctioLinearis::new(move |_a: A| -> (c: B) ensures c == b { b })
}

/// Curry a binary linear function: `(A, B) ⊸ C` becomes `A ⊸ (B ⊸ C)`.
pub fn linear_curry<A: 'static, B: 'static, C: 'static>(
    f: FunctioLinearis<(A, B), C>,
) -> (r: FunctioLinearis<A, FunctioLinearis<B, C>>)
    ensures
        forall|a: A| #[trigger] r.pre(a),
        forall|a: A, inner| #[trigger] r.post(a, inner) ==> curried_inner(f, a, inner),
{
    let outer = move |a: A| -> (inner: FunctioLinearis<B, C>)
        ensures
            curried_inner(f, a, inner),
        {
            let h = move |b: B| -> (c: C)
                requires
                    f.pre((a, b)),
                ensures
                    f.post((a, b), c),
                {
                    f.apply((a, b))
                };
            FunctioLinearis::new(h)
        };
    FunctioLinearis::new(outer)
}

/// What `linear_curry` promises of the function it returns for `a`: it runs
/// `f` on the pair of `a` and its argument.
pub open spec fn curried_inner<A, B, C>(
    f: FunctioLinearis<(A, B), C>,
    a: A,
    inner: FunctioLinearis<B, C>,
) -> bool {
    &&& forall|b: B| f.pre((a, b)) ==> #[trigger] inner.pre(b)
    &&& forall|b: B, c: C| #[trigger] inner.post(b, c) ==> f.post((a, b), c)
}

/// Uncurry a curried linear function: `A ⊸ (B ⊸ C)` becomes `(A, B) ⊸ C`.
pub fn linear_uncurry<A: 'static, B: 'static, C: 'static>(
    f: FunctioLinearis<A, FunctioLinearis<B, C>>,
) -> (r: FunctioLinearis<(A, B), C>)
    ensures
        forall|a: A, b: B|
            f.pre(a) && (forall|g| f.post(a, g) ==> g.pre(b))
                ==> #[trigger] r.pre((a, b)),
        forall|a: A, b: B, c: C| #[trigger]
            r.post((a, b), c) ==> exists|g| f.post(a, g) && g.post(b, c),
{
    let h = move |p: (A, B)| -> (c: C)
        requires
            f.pre(p.0),
            forall|g| f.post(p.0, g) ==> g.pre(p.1),
        ensures
            exists|g| f.post(p.0, g) && g.post(p.1, c),
        {
            let (a, b) = p;
            let inner: FunctioLinearis<B, C> = f.apply(a);
            inner.apply(b)
        };
    FunctioLinearis::new(h)
}

/// Composition of linear functions is associative: composing `f` with `g`
/// then with `h`, or `f` with the composite of `g` and `h`, relates every
/// argument to results reachable through the same three steps.
pub proof fn law_compose_associative<A, B, C, D>(
    f: FunctioLinearis<A, B>,
    g: FunctioLinearis<B, C>,
    h: FunctioLinearis<C, D>,
    fg: FunctioLinearis<A, C>,
    gh: FunctioLinearis<B, D>,
    a: A,
    d: D,
)
    requires
        forall|x: A, y: C| #[trigger] fg.post(x, y) ==> exists|b: B| f.post(x, b) && g.post(b, y),
        forall|x: B, y: D| #[trigger] gh.post(x, y) ==> exists|c: C| g.post(x, c) && h.post(c, y),
    ensures
        (exists|c: C| fg.post(a, c) && h.post(c, d)) ==> exists|b: B, c: C|
            f.post(a, b) && g.post(b, c) && h.post(c, d),
        (exists|b: B| f.post(a, b) && gh.post(b, d)) ==> exists|b: B, c: C|
            f.post(a, b) && g.post(b, c) && h.post(c, d),
{
    if exists|c: C| fg.post(a, c) && h.post(c, d) {
        let c = choose|c: C| fg.post(a, c) && h.post(c, d);
        let b = choose|b: B| f.post(a, b) && g.post(b, c);
        assert(f.post(a, b) && g.post(b, c) && h.post(c, d));
    }
    if exists|b: B| f.post(a, b) && gh.post(b, d) {
        let b = choose|b: B| f.post(a, b) && gh.post(b, d);
        let c = choose|c: C| g.post(b, c) && h.post(c, d);
        assert(f.post(a, b) && g.post(b, c) && h.post(c, d));
    }
}

} // verus!
