//! Heterogeneous lists: a chain of `Coniunctio` cells closed by `Nihil`,
//! whose element types are tracked at the type level.

use vstd::prelude::*;

verus! {

/// A heterogeneous list.
pub trait HList: Sized {
    /// The number of elements.
    spec fn longitudo(&self) -> nat;

    /// The number of elements.
    fn len(&self) -> (n: usize)
        requires
            self.longitudo() <= usize::MAX,
        ensures
            n == self.longitudo(),
    ;

    /// Whether the list has no elements.
    fn is_empty(&self) -> (b: bool)
        ensures
            b == (self.longitudo() == 0),
    ;
}

/// The empty list.
#[derive(Debug, Clone, Copy, PartialEq, Eq, PartialOrd, Ord, Hash, Default)]
pub struct Nihil;

/// A list cell: one element in front of the rest of the list.
#[derive(Debug, Clone, Copy, PartialEq, Eq, PartialOrd, Ord, Hash, Default)]
pub struct Coniunctio<H, T> {
    /// The first element.
    pub head: H,
    /// The rest of the list.
    pub tail: T,
}

impl HList for Nihil {
    open spec fn longitudo(&self) -> nat {
        0
    }

    fn len(&self) -> (n: usize) {
        0
    }

    fn is_empty(&self) -> (b: bool) {
        true
    }
}

impl<H, T: HList> HList for Coniunctio<H, T> {
    open spec fn longitudo(&self) -> nat {
        1 + self.tail.longitudo()
    }

    fn len(&self) -> (n: usize) {
        1 + self.tail.len()
    }

    fn is_empty(&self) -> (b: bool) {
        false
    }
}

} // verus!
