//! Traits shared across the library's data types.

use vstd::prelude::*;

verus! {

/// Conversion of a borrowed value into a view of references.
pub trait ToRef<'a> {
    /// The view of references.
    type Output;

    /// The view of references into `self`.
    fn to_ref(&'a self) -> Self::Output;
}

/// Conversion of a mutably borrowed value into a view of mutable references.
pub trait ToMut<'a> {
    /// The view of mutable references.
    type Output;

    /// The view of mutable references into `self`.
    fn to_mut(&'a mut self) -> Self::Output;
}

/// Reversal of a sequence-like value.
pub trait IntoReverse {
    /// The reversed type.
    type Output;

    /// `self` reversed.
    fn into_reverse(self) -> Self::Output;
}

/// A polymorphic function value, applied through `Func`.
#[derive(Debug, Copy, Clone, Default)]
pub struct Poly<T>(pub T);

/// A function given by a type, applied to an input of type `Input`.
pub trait Func<Input> {
    /// The result type.
    type Output;

    /// Apply the function.
    fn call(i: Input) -> Self::Output;
}

} // verus!
