//! Type-level positions in a heterogeneous list.

use core::marker::PhantomData;
use vstd::prelude::*;

verus! {

/// The element sought is the head of the list.
#[derive(Debug, Clone, Copy, PartialEq, Eq, Default)]
pub struct Here;

/// The element sought is in the tail, at position `T` there.
#[derive(Debug, PartialEq, Eq)]
pub struct There<T>(pub PhantomData<T>);

impl<T> Clone for There<T> {
    /// Positions carry no data: every copy is the same position.
    fn clone(&self) -> (r: Self)
        ensures
            r == *self,
    {
        There(PhantomData)
    }
}

impl<T> Copy for There<T> {

}

} // verus!
