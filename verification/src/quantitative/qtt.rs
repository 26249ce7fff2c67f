//! `Qtt<A, M>`: a value together with a type-level multiplicity `M`.

use core::marker::PhantomData;
use core::ops::Deref;
use vstd::prelude::*;

use super::multiplicitas::{Multiplicitas, Nihil, Omega, Semel, Usage};

verus! {

/// A value with an explicit multiplicity annotation.
///
/// - `Qtt<A, Nihil>`: meant to be erased and unused (advisory: it can
///   still be consumed, but not duplicated),
/// - `Qtt<A, Semel>`: must be used exactly once,
/// - `Qtt<A, Omega>`: can be used any number of times.
#[derive(Debug, PartialEq, Eq, PartialOrd, Ord, Hash)]
pub struct Qtt<A, M: Usage> {
    value: A,
    _multiplicity: PhantomData<M>,
}

impl<A, M: Usage> View for Qtt<A, M> {
    type V = A;

    /// The wrapped value.
    closed spec fn view(&self) -> A {
        self.value
    }
}

impl<A, M: Usage> Qtt<A, M> {
    /// Create a new quantitative value with the given multiplicity.
    pub fn new(value: A) -> (r: Self)
        ensures
            r@ == value,
    {
        Qtt { value, _multiplicity: PhantomData }
    }

    /// The runtime multiplicity value.
    pub fn multiplicity(&self) -> (r: Multiplicitas)
        ensures
            r == M::VALUE,
    {
        M::VALUE
    }

    /// Whether this value can be discarded without use.
    pub fn can_discard(&self) -> (r: bool)
        ensures
            r == M::ALLOWS_DISCARD,
    {
        M::ALLOWS_DISCARD
    }

    /// Whether this value can be duplicated.
    pub fn can_dup(&self) -> (r: bool)
        ensures
            r == M::ALLOWS_DUP,
    {
        M::ALLOWS_DUP
    }

    /// Consume the value (one use), returning the inner value.
    pub fn consume(self) -> (r: A)
        ensures
            r == self@,
    {
        self.value
    }

    /// Map a function over the value, preserving the multiplicity.
    pub fn fmap<B, F>(self, f: F) -> (r: Qtt<B, M>) where F: FnOnce(A) -> B
        requires
            f.requires((self@,)),
        ensures
            f.ensures((self@,), r@),
    {
        Qtt::new(f(self.value))
    }

    /// Apply a function to the value, consuming it.
    pub fn consume_with<B, F>(self, f: F) -> (r: B) where F: FnOnce(A) -> B
        requires
            f.requires((self@,)),
        ensures
            f.ensures((self@,), r),
    {
        f(self.value)
    }

    /// Convert to an `Option`, always `Some`.
    pub fn into_option(self) -> (r: Option<A>)
        ensures
            r == Some(self@),
    {
        Some(self.value)
    }

    /// Convert to a `Result`, always `Ok`.
    pub fn into_result<E>(self) -> (r: Result<A, E>)
        ensures
            r == Ok::<A, E>(self@),
    {
        Ok(self.value)
    }

    /// Monadic unit: wrap a value.
    pub fn purus(value: A) -> (r: Self)
        ensures
            r@ == value,
    {
        Qtt::new(value)
    }

    /// Monadic bind: feed the value to `f`.
    pub fn bind<B, F>(self, f: F) -> (r: Qtt<B, M>) where F: FnOnce(A) -> Qtt<B, M>
        requires
            f.requires((self@,)),
        ensures
            f.ensures((self@,), r),
    {
        f(self.value)
    }

    /// Sequence two values of the same multiplicity, keeping the second.
    pub fn then<B>(self, other: Qtt<B, M>) -> (r: Qtt<B, M>)
        ensures
            r == other,
    {
        other
    }
}

impl<A, M: Usage> Qtt<A, M> {
    /// A `Qtt` is determined by the value it carries: the multiplicity lives
    /// only in its type.
    pub proof fn lemma_view_determines(x: Self, y: Self)
        requires
            x@ == y@,
        ensures
            x == y,
    {
        assert(x._multiplicity == y._multiplicity);
    }
}

impl<A> Qtt<A, Nihil> {
    /// Create an erased value.
    pub fn erased(value: A) -> (r: Self)
        ensures
            r@ == value,
    {
        Qtt::new(value)
    }

    /// Witness that erased values can be freely discarded.
    pub fn discard(self) {
    }

    /// Witness that erased values can be "duplicated": the copy carries no
    /// runtime content.
    pub fn phantom_dup(&self) -> (r: Qtt<(), Nihil>) where A: Copy
        ensures
            r@ == (),
    {
        Qtt::new(())
    }
}

impl<A> Qtt<A, Semel> {
    /// Create a linear value.
    pub fn linear(value: A) -> (r: Self)
        ensures
            r@ == value,
    {
        Qtt::new(value)
    }

    /// Split a linear value into two linear parts using a function.
    pub fn split<B, C, F>(self, f: F) -> (r: (Qtt<B, Semel>, Qtt<C, Semel>)) where
        F: FnOnce(A) -> (B, C),

        requires
            f.requires((self@,)),
        ensures
            f.ensures((self@,), (r.0@, r.1@)),
    {
        let (b, c) = f(self.value);
        (Qtt::new(b), Qtt::new(c))
    }

    /// Chain linear computations (monadic bind).
    pub fn bind_linear<B, F>(self, f: F) -> (r: Qtt<B, Semel>) where
        F: FnOnce(A) -> Qtt<B, Semel>,

        requires
            f.requires((self@,)),
        ensures
            f.ensures((self@,), r),
    {
        f(self.value)
    }

    /// Sequence two linear values, keeping the second.
    pub fn then_linear<B>(self, other: Qtt<B, Semel>) -> (r: Qtt<B, Semel>)
        ensures
            r == other,
    {
        let _ = self.value;
        other
    }

    /// Relax a linear value to unrestricted (the type must allow cloning).
    pub fn relax(self) -> (r: Qtt<A, Omega>) where A: Clone
        ensures
            r@ == self@,
    {
        Qtt::new(self.value)
    }
}

impl<A> Qtt<A, Omega> {
    /// Create an unrestricted value.
    pub fn unrestricted(value: A) -> (r: Self)
        ensures
            r@ == value,
    {
        Qtt::new(value)
    }

    /// Duplicate the value (unrestricted values only).
    pub fn dup(&self) -> (r: Qtt<A, Omega>) where A: Clone
        ensures
            cloned(self@, r@),
    {
        Qtt::new(self.value.clone())
    }

    /// Discard the value without using it (unrestricted values only).
    pub fn discard(self) {
    }

    /// A reference to the inner value.
    pub fn get_ref(&self) -> (r: &A)
        ensures
            *r == self@,
    {
        &self.value
    }

    /// Restrict an unrestricted value to linear usage.
    pub fn restrict(self) -> (r: Qtt<A, Semel>)
        ensures
            r@ == self@,
    {
        Qtt::new(self.value)
    }

    /// Erase an unrestricted value to zero multiplicity.
    pub fn erase(self) -> (r: Qtt<A, Nihil>)
        ensures
            r@ == self@,
    {
        Qtt::new(self.value)
    }
}

impl<A: Clone> Clone for Qtt<A, Omega> {
    /// Only unrestricted values can be cloned.
    fn clone(&self) -> (r: Self)
        ensures
            cloned(self@, r@),
    {
        Qtt::new(self.value.clone())
    }
}

impl<A: Copy> Copy for Qtt<A, Omega> {
}

impl<A> Deref for Qtt<A, Omega> {
    type Target = A;

    /// Unrestricted values give shared access to their content.
    fn deref(&self) -> (r: &A)
        ensures
            *r == self@,
    {
        &self.value
    }
}

/// Conversions of plain values into `Qtt` wrappers.
pub trait QttExt: Sized {
    /// Wrap as a linear value.
    fn into_linear(self) -> (r: Qtt<Self, Semel>)
        ensures
            r@ == self,
    {
        Qtt::linear(self)
    }

    /// Wrap as an unrestricted value.
    fn into_unrestricted(self) -> (r: Qtt<Self, Omega>)
        ensures
            r@ == self,
    {
        Qtt::unrestricted(self)
    }

    /// Wrap as an erased value.
    fn into_erased(self) -> (r: Qtt<Self, Nihil>)
        ensures
            r@ == self,
    {
        Qtt::erased(self)
    }
}

impl<T> QttExt for T {
}

/// A linear value (multiplicity 1).
pub type QttLinearis<A> = Qtt<A, Semel>;

/// An erased value (multiplicity 0).
pub type QttErasum<A> = Qtt<A, Nihil>;

/// An unrestricted value (multiplicity ω).
pub type QttLiber<A> = Qtt<A, Omega>;

} // verus!
