//! Monoid structure: an identity element and an associative combination.

use vstd::prelude::*;

verus! {

/// Types with an identity element for their combination (monoids).
pub trait Unitas: Compositio + Sized {
    /// Whether `self` is an identity element.
    spec fn vacuum(&self) -> bool;

    /// The identity element.
    fn empty() -> (r: Self)
        ensures
            r.vacuum(),
    ;
}

/// Types whose values combine (associatively, for a lawful instance).
pub trait Compositio: Sized {
    /// Whether `r` is a combination of `self` followed by `other`.
    spec fn compositum(&self, other: &Self, r: &Self) -> bool;

    /// Combine `self` with `other`, `self` first.
    fn combine(&self, other: &Self) -> (r: Self)
        ensures
            Self::compositum(self, other, &r),
    ;
}

impl<T: Clone> Unitas for Vec<T> {
    open spec fn vacuum(&self) -> bool {
        self@.len() == 0
    }

    /// The empty vector.
    fn empty() -> (r: Self)
        ensures
            r@ == Seq::<T>::empty(),
    {
        Vec::new()
    }
}

impl<T: Clone> Compositio for Vec<T> {
    /// `r` holds clones of the elements of `self`, then clones of those of
    /// `other`.
    open spec fn compositum(&self, other: &Self, r: &Self) -> bool {
        &&& r@.len() == self@.len() + other@.len()
        &&& forall|i: int| 0 <= i < self@.len() ==> cloned(self@[i], #[trigger] r@[i])
        &&& forall|j: int|
            0 <= j < other@.len() ==> cloned(other@[j], #[trigger] r@[self@.len() + j])
    }

    /// Clones of the elements of `self`, then clones of those of `other`.
    fn combine(&self, other: &Self) -> (r: Self)
        ensures
            r@.len() == self@.len() + other@.len(),
            forall|i: int| 0 <= i < self@.len() ==> cloned(self@[i], #[trigger] r@[i]),
            forall|j: int|
                0 <= j < other@.len() ==> cloned(other@[j], #[trigger] r@[self@.len() + j]),
    {
        let mut r: Vec<T> = Vec::new();
        let mut i: usize = 0;
        while i < self.len()
            invariant
                i <= self@.len(),
                r@.len() == i,
                forall|k: int| 0 <= k < i ==> cloned(self@[k], #[trigger] r@[k]),
            decreases self@.len() - i,
        {
            r.push(self[i].clone());
            i = i + 1;
        }
        let mut j: usize = 0;
        while j < other.len()
            invariant
                j <= other@.len(),
                r@.len() == self@.len() + j,
                forall|k: int| 0 <= k < self@.len() ==> cloned(self@[k], #[trigger] r@[k]),
                forall|k: int| 0 <= k < j ==> cloned(other@[k], #[trigger] r@[self@.len() + k]),
            decreases other@.len() - j,
        {
            r.push(other[j].clone());
            j = j + 1;
        }
        r
    }
}

impl Unitas for String {
    open spec fn vacuum(&self) -> bool {
        self@ == Seq::<char>::empty()
    }

    /// The empty string.
    fn empty() -> (r: Self)
        ensures
            r@ == Seq::<char>::empty(),
    {
        String::new()
    }
}

impl Compositio for String {
    open spec fn compositum(&self, other: &Self, r: &Self) -> bool {
        r@ == self@ + other@
    }

    /// `self` followed by `other`.
    fn combine(&self, other: &Self) -> (r: Self)
        ensures
            r@ == self@ + other@,
    {
        let mut s = self.clone();
        s.append(other.as_str());
        s
    }
}

} // verus!
