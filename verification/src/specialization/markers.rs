//! Marker types guiding specialization, monomorphization, fusion and
//! inlining.

use core::marker::PhantomData;
use vstd::prelude::*;

verus! {

/// Types that select a specialization strategy through a tag.
pub trait Specialize: Sized {
    /// The specialization tag.
    type Tag;
}

/// Default specialization tag.
pub struct DefaultSpec;

/// Tag for always-inlined code.
pub struct InlineSpec;

/// Tag for never-inlined code.
pub struct NoInlineSpec;

/// Tag for small types.
pub struct SmallSpec;

/// Tag for large types.
pub struct LargeSpec;

/// Forces monomorphization over `T`.
#[derive(Debug, PartialEq, Eq, PartialOrd, Ord, Hash)]
pub struct Mono<T>(PhantomData<T>);

impl<T> Mono<T> {
    /// Create the marker.
    pub fn new() -> (r: Self) {
        Mono(PhantomData)
    }
}

impl<T> Clone for Mono<T> {
    /// Markers carry no data: every copy is the same marker.
    fn clone(&self) -> (r: Self)
        ensures
            r == *self,
    {
        Mono(PhantomData)
    }
}

impl<T> Copy for Mono<T> {
}

impl<T> Default for Mono<T> {
    /// Same as `new`.
    fn default() -> (r: Self) {
        Self::new()
    }
}

/// Distinguishes otherwise identical instantiations of `T` by `ID`.
#[derive(Debug, PartialEq, Eq)]
pub struct Distinct<T, const ID: u64>(PhantomData<T>);

impl<T, const ID: u64> Distinct<T, ID> {
    /// Create the marker.
    pub fn new() -> (r: Self) {
        Distinct(PhantomData)
    }
}

impl<T, const ID: u64> Clone for Distinct<T, ID> {
    /// Markers carry no data: every copy is the same marker.
    fn clone(&self) -> (r: Self)
        ensures
            r == *self,
    {
        Distinct(PhantomData)
    }
}

impl<T, const ID: u64> Copy for Distinct<T, ID> {
}

impl<T, const ID: u64> Default for Distinct<T, ID> {
    /// Same as `new`.
    fn default() -> (r: Self) {
        Self::new()
    }
}

/// Marks pure computations.
#[derive(Debug, Clone, Copy, PartialEq, Eq)]
pub struct Pure;

/// Marks computations with state `S`.
#[derive(Debug, PartialEq, Eq)]
pub struct Stateful<S>(PhantomData<S>);

impl<S> Stateful<S> {
    /// Create the marker.
    pub fn new() -> (r: Self) {
        Stateful(PhantomData)
    }
}

impl<S> Clone for Stateful<S> {
    /// Markers carry no data: every copy is the same marker.
    fn clone(&self) -> (r: Self)
        ensures
            r == *self,
    {
        Stateful(PhantomData)
    }
}

impl<S> Copy for Stateful<S> {
}

impl<S> Default for Stateful<S> {
    /// Same as `new`.
    fn default() -> (r: Self) {
        Self::new()
    }
}

/// Marks computations with effects `R`.
#[derive(Debug, PartialEq, Eq)]
pub struct Effectful<R>(PhantomData<R>);

impl<R> Effectful<R> {
    /// Create the marker.
    pub fn new() -> (r: Self) {
        Effectful(PhantomData)
    }
}

impl<R> Clone for Effectful<R> {
    /// Markers carry no data: every copy is the same marker.
    fn clone(&self) -> (r: Self)
        ensures
            r == *self,
    {
        Effectful(PhantomData)
    }
}

impl<R> Copy for Effectful<R> {
}

impl<R> Default for Effectful<R> {
    /// Same as `new`.
    fn default() -> (r: Self) {
        Self::new()
    }
}

/// Operations that can be fused with a following one.
pub trait Fusible {
    /// The fused operation type.
    type Fused;

    /// Whether fusion is beneficial.
    const FUSION_BENEFICIAL: bool = true;
}

/// Requests fusion with `T`.
#[derive(Debug)]
pub struct FuseWith<T>(PhantomData<T>);

impl<T> FuseWith<T> {
    /// Create the marker.
    pub fn new() -> (r: Self) {
        FuseWith(PhantomData)
    }
}

impl<T> Clone for FuseWith<T> {
    /// Markers carry no data: every copy is the same marker.
    fn clone(&self) -> (r: Self)
        ensures
            r == *self,
    {
        FuseWith(PhantomData)
    }
}

impl<T> Copy for FuseWith<T> {
}

impl<T> Default for FuseWith<T> {
    /// Same as `new`.
    fn default() -> (r: Self) {
        Self::new()
    }
}

/// Prevents fusion.
#[derive(Debug, Clone, Copy)]
pub struct NoFuse;

/// A function wrapper whose call is always inlined.
pub struct InlineHint<F>(pub F);

impl<F> InlineHint<F> {
    /// Wrap a function.
    #[inline(always)]
    pub fn new(f: F) -> (r: Self)
        ensures
            r.0 == f,
    {
        InlineHint(f)
    }

    /// Call the wrapped function.
    #[inline(always)]
    pub fn call<A, R>(self, arg: A) -> (r: R) where F: FnOnce(A) -> R
        requires
            self.0.requires((arg,)),
        ensures
            self.0.ensures((arg,), r),
    {
        (self.0)(arg)
    }
}

/// A function wrapper whose call is never inlined.
pub struct NoInlineHint<F>(pub F);

impl<F> NoInlineHint<F> {
    /// Wrap a function.
    #[inline(never)]
    pub fn new(f: F) -> (r: Self)
        ensures
            r.0 == f,
    {
        NoInlineHint(f)
    }

    /// Call the wrapped function.
    #[inline(never)]
    pub fn call<A, R>(self, arg: A) -> (r: R) where F: FnOnce(A) -> R
        requires
            self.0.requires((arg,)),
        ensures
            self.0.ensures((arg,), r),
    {
        (self.0)(arg)
    }
}

/// Types small enough to pass in registers.
pub trait SmallType: Sized + Copy {
    /// The largest size, in bytes, that counts as small.
    const MAX_SIZE: usize = 16;

    /// Whether `Self` is at most `MAX_SIZE` bytes.
    fn is_small() -> (r: bool)
        ensures
            r == (vstd::layout::size_of::<Self>() <= Self::MAX_SIZE),
    {
        core::mem::size_of::<Self>() <= Self::MAX_SIZE
    }
}

impl SmallType for u8 {}

impl SmallType for u16 {}

impl SmallType for u32 {}

impl SmallType for u64 {}

impl SmallType for u128 {}

impl SmallType for usize {}

impl SmallType for i8 {}

impl SmallType for i16 {}

impl SmallType for i32 {}

impl SmallType for i64 {}

impl SmallType for i128 {}

impl SmallType for isize {}

impl SmallType for bool {}

impl SmallType for char {}

/// Zero-sized types.
pub trait ZeroSized: Sized {
    /// Whether `Self` occupies no memory.
    fn is_zst() -> (r: bool)
        ensures
            r == (vstd::layout::size_of::<Self>() == 0),
    {
        core::mem::size_of::<Self>() == 0
    }
}

impl ZeroSized for () {}

impl<T> ZeroSized for PhantomData<T> {}

} // verus!
