//! Boxed closures whose contracts travel with them.
//!
//! A closure stored behind a trait object loses its type, and with it its
//! `requires` and `ensures`. The traits here keep them: each boxed closure
//! answers `pre` and `post` with the contract of the closure it was made
//! from.

use vstd::prelude::*;

verus! {

/// A closure that is called at most once, taking its argument by value.
pub trait ActioSemel<A, B> {
    /// The precondition of the boxed closure at argument `a`.
    spec fn pre(&self, a: A) -> bool;

    /// The postcondition of the boxed closure at argument `a` and result `b`.
    spec fn post(&self, a: A, b: B) -> bool;

    /// Calls the boxed closure, consuming it.
    fn invoke_once(self: Box<Self>, a: A) -> (b: B)
        requires
            self.pre(a),
        ensures
            self.post(a, b),
    ;
}

/// A closure that may be called many times, taking its argument by value.
pub trait Actio<A, B> {
    /// The precondition of the closure at argument `a`.
    spec fn pre(&self, a: A) -> bool;

    /// The postcondition of the closure at argument `a` and result `b`.
    spec fn post(&self, a: A, b: B) -> bool;

    /// Calls the closure.
    fn invoke(&self, a: A) -> (b: B)
        requires
            self.pre(a),
        ensures
            self.post(a, b),
    ;
}

/// A closure that may be called many times, taking its argument by reference.
pub trait ActioRef<A, B> {
    /// The precondition of the closure at argument `a`.
    spec fn pre(&self, a: &A) -> bool;

    /// The postcondition of the closure at argument `a` and result `b`.
    spec fn post(&self, a: &A, b: B) -> bool;

    /// Calls the closure.
    fn invoke(&self, a: &A) -> (b: B)
        requires
            self.pre(a),
        ensures
            self.post(a, b),
    ;
}

/// The precondition of `f` at `a`, read through a reference (so that a
/// closure mentioning it in its own contract only borrows `f`).
pub open spec fn calls<A, B, F: Fn(A) -> B>(f: &F, a: A) -> bool {
    (*f).requires((a,))
}

/// The postcondition of `f` at `a` and `b`, read through a reference.
pub open spec fn gives<A, B, F: Fn(A) -> B>(f: &F, a: A, b: B) -> bool {
    (*f).ensures((a,), b)
}

/// The precondition of the two-argument `f` at `a`, `b`, read through a
/// reference.
pub open spec fn calls2<A, B, C, F: Fn(A, B) -> C>(f: &F, a: A, b: B) -> bool {
    (*f).requires((a, b))
}

/// The postcondition of the two-argument `f`, read through a reference.
pub open spec fn gives2<A, B, C, F: Fn(A, B) -> C>(f: &F, a: A, b: B, c: C) -> bool {
    (*f).ensures((a, b), c)
}

/// Whether `x` may be a clone of `*v`, read through a reference.
pub open spec fn clone_of<A: Clone>(v: &A, x: A) -> bool {
    cloned(*v, x)
}

/// A closure `F` seen through one of the traits above.
pub struct Involucrum<F>(pub F);

impl<A, B, F: FnOnce(A) -> B> ActioSemel<A, B> for Involucrum<F> {
    open spec fn pre(&self, a: A) -> bool {
        self.0.requires((a,))
    }

    open spec fn post(&self, a: A, b: B) -> bool {
        self.0.ensures((a,), b)
    }

    fn invoke_once(self: Box<Self>, a: A) -> (b: B) {
        let w = *self;
        (w.0)(a)
    }
}

impl<A, B, F: Fn(A) -> B> Actio<A, B> for Involucrum<F> {
    open spec fn pre(&self, a: A) -> bool {
        self.0.requires((a,))
    }

    open spec fn post(&self, a: A, b: B) -> bool {
        self.0.ensures((a,), b)
    }

    fn invoke(&self, a: A) -> (b: B) {
        (self.0)(a)
    }
}

impl<A, B, F: Fn(&A) -> B> ActioRef<A, B> for Involucrum<F> {
    open spec fn pre(&self, a: &A) -> bool {
        self.0.requires((a,))
    }

    open spec fn post(&self, a: &A, b: B) -> bool {
        self.0.ensures((a,), b)
    }

    fn invoke(&self, a: &A) -> (b: B) {
        (self.0)(a)
    }
}

} // verus!
