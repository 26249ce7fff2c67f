//! A binary sum used by apomorphisms to stop early (`Sinister`) or
//! continue unfolding (`Dexter`).

use vstd::prelude::*;

verus! {

/// Either a finished structure (`Sinister`) or a seed to keep unfolding
/// (`Dexter`).
#[derive(Debug, Clone, Copy, PartialEq, Eq)]
pub enum Aut<L, R> {
    /// The left alternative.
    Sinister(L),
    /// The right alternative.
    Dexter(R),
}

impl<L, R> Aut<L, R> {
    /// Build the left alternative.
    pub fn sinister(l: L) -> (r: Self)
        ensures
            r == Aut::<L, R>::Sinister(l),
    {
        Aut::Sinister(l)
    }

    /// Build the right alternative.
    pub fn dexter(r: R) -> (a: Self)
        ensures
            a == Aut::<L, R>::Dexter(r),
    {
        Aut::Dexter(r)
    }

    /// Whether this is the left alternative.
    pub fn is_sinister(&self) -> (r: bool)
        ensures
            r == (self is Sinister),
    {
        matches!(self, Aut::Sinister(_))
    }

    /// Whether this is the right alternative.
    pub fn is_dexter(&self) -> (r: bool)
        ensures
            r == (self is Dexter),
    {
        matches!(self, Aut::Dexter(_))
    }

    /// Map over the left alternative.
    pub fn map_sinister<B, F>(self, f: F) -> (r: Aut<B, R>) where F: FnOnce(L) -> B
        requires
            self matches Aut::Sinister(l) ==> f.requires((l,)),
        ensures
            match self {
                Aut::Sinister(l) => r matches Aut::Sinister(b) && f.ensures((l,), b),
                Aut::Dexter(x) => r == Aut::<B, R>::Dexter(x),
            },
    {
        match self {
            Aut::Sinister(l) => Aut::Sinister(f(l)),
            Aut::Dexter(r) => Aut::Dexter(r),
        }
    }

    /// Map over the right alternative.
    pub fn map_dexter<B, F>(self, f: F) -> (r: Aut<L, B>) where F: FnOnce(R) -> B
        requires
            self matches Aut::Dexter(x) ==> f.requires((x,)),
        ensures
            match self {
                Aut::Sinister(l) => r == Aut::<L, B>::Sinister(l),
                Aut::Dexter(x) => r matches Aut::Dexter(b) && f.ensures((x,), b),
            },
    {
        match self {
            Aut::Sinister(l) => Aut::Sinister(l),
            Aut::Dexter(r) => Aut::Dexter(f(r)),
        }
    }

    /// Map over both alternatives.
    pub fn bimap<A, B, F, G>(self, f: F, g: G) -> (r: Aut<A, B>) where
        F: FnOnce(L) -> A,
        G: FnOnce(R) -> B,

        requires
            self matches Aut::Sinister(l) ==> f.requires((l,)),
            self matches Aut::Dexter(x) ==> g.requires((x,)),
        ensures
            match self {
                Aut::Sinister(l) => r matches Aut::Sinister(a) && f.ensures((l,), a),
                Aut::Dexter(x) => r matches Aut::Dexter(b) && g.ensures((x,), b),
            },
    {
        match self {
            Aut::Sinister(l) => Aut::Sinister(f(l)),
            Aut::Dexter(r) => Aut::Dexter(g(r)),
        }
    }
}

} // verus!
