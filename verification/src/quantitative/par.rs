//! Linear products and sums: the tensor product `A ⊗ B` (both parts are
//! used), the additive product `A & B` (exactly one part is chosen) and the
//! result of such a choice.

use vstd::prelude::*;

verus! {

/// Tensor product `A ⊗ B`: a pair whose two components must both be used.
#[derive(Debug, Clone, Copy, PartialEq, Eq, PartialOrd, Ord, Hash, Default)]
pub struct ParLinearis<A, B> {
    first: A,
    second: B,
}

impl<A, B> View for ParLinearis<A, B> {
    type V = (A, B);

    /// The two components.
    closed spec fn view(&self) -> (A, B) {
        (self.first, self.second)
    }
}

impl<A, B> ParLinearis<A, B> {
    /// Create a new tensor product.
    pub fn new(first: A, second: B) -> (r: Self)
        ensures
            r@ == (first, second),
    {
        ParLinearis { first, second }
    }

    /// Split into both components (the linear elimination rule).
    pub fn split(self) -> (r: (A, B))
        ensures
            r == self@,
    {
        (self.first, self.second)
    }

    /// Consume both components with a binary function.
    pub fn consume_with<C, F>(self, f: F) -> (r: C) where F: FnOnce(A, B) -> C
        requires
            f.requires((self@.0, self@.1)),
        ensures
            f.ensures((self@.0, self@.1), r),
    {
        f(self.first, self.second)
    }

    /// Map over the first component.
    pub fn map_first<C, F>(self, f: F) -> (r: ParLinearis<C, B>) where F: FnOnce(A) -> C
        requires
            f.requires((self@.0,)),
        ensures
            f.ensures((self@.0,), r@.0),
            r@.1 == self@.1,
    {
        ParLinearis::new(f(self.first), self.second)
    }

    /// Map over the second component.
    pub fn map_second<C, F>(self, f: F) -> (r: ParLinearis<A, C>) where F: FnOnce(B) -> C
        requires
            f.requires((self@.1,)),
        ensures
            r@.0 == self@.0,
            f.ensures((self@.1,), r@.1),
    {
        ParLinearis::new(self.first, f(self.second))
    }

    /// Map over both components.
    pub fn bimap<C, D, F, G>(self, f: F, g: G) -> (r: ParLinearis<C, D>) where
        F: FnOnce(A) -> C,
        G: FnOnce(B) -> D,

        requires
            f.requires((self@.0,)),
            g.requires((self@.1,)),
        ensures
            f.ensures((self@.0,), r@.0),
            g.ensures((self@.1,), r@.1),
    {
        ParLinearis::new(f(self.first), g(self.second))
    }

    /// Swap the components (tensor is symmetric).
    pub fn swap(self) -> (r: ParLinearis<B, A>)
        ensures
            r@ == (self@.1, self@.0),
    {
        ParLinearis::new(self.second, self.first)
    }
}

impl<A, B, C> ParLinearis<A, ParLinearis<B, C>> {
    /// Reassociate `A ⊗ (B ⊗ C)` to `(A ⊗ B) ⊗ C`.
    pub fn assoc_left(self) -> (r: ParLinearis<ParLinearis<A, B>, C>)
        ensures
            r@.0@ == (self@.0, self@.1@.0),
            r@.1 == self@.1@.1,
    {
        let (a, bc) = self.split();
        let (b, c) = bc.split();
        ParLinearis::new(ParLinearis::new(a, b), c)
    }
}

impl<A, B, C> ParLinearis<ParLinearis<A, B>, C> {
    /// Reassociate `(A ⊗ B) ⊗ C` to `A ⊗ (B ⊗ C)`.
    pub fn assoc_right(self) -> (r: ParLinearis<A, ParLinearis<B, C>>)
        ensures
            r@.0 == self@.0@.0,
            r@.1@ == (self@.0@.1, self@.1),
    {
        let (ab, c) = self.split();
        let (a, b) = ab.split();
        ParLinearis::new(a, ParLinearis::new(b, c))
    }
}

impl<A, B> From<(A, B)> for ParLinearis<A, B> {
    /// Build a tensor product from a tuple.
    fn from(pair: (A, B)) -> (r: Self) {
        let (a, b) = pair;
        ParLinearis::new(a, b)
    }
}

impl<A, B> vstd::std_specs::convert::FromSpecImpl<(A, B)> for ParLinearis<A, B> {
    open spec fn obeys_from_spec() -> bool {
        true
    }

    closed spec fn from_spec(pair: (A, B)) -> Self {
        ParLinearis { first: pair.0, second: pair.1 }
    }
}

impl<A, B> From<ParLinearis<A, B>> for (A, B) {
    /// Split a tensor product into a tuple.
    fn from(pair: ParLinearis<A, B>) -> (r: Self) {
        pair.split()
    }
}

impl<A, B> vstd::std_specs::convert::FromSpecImpl<ParLinearis<A, B>> for (A, B) {
    open spec fn obeys_from_spec() -> bool {
        true
    }

    closed spec fn from_spec(pair: ParLinearis<A, B>) -> Self {
        (pair.first, pair.second)
    }
}

/// Swapping a tensor product twice gives it back, and reassociating to the
/// left then to the right gives back the same components.
pub proof fn law_par_symmetry<A, B>(p: ParLinearis<A, B>, s: ParLinearis<B, A>, t: ParLinearis<A, B>)
    requires
        s@ == (p@.1, p@.0),
        t@ == (s@.1, s@.0),
    ensures
        t == p,
{
    assert(t.first == p.first && t.second == p.second);
}

/// Named alias of the tensor product.
pub type TensorLinearis<A, B> = ParLinearis<A, B>;

/// Additive product `A & B`: both alternatives are available, exactly one
/// is chosen and the other is dropped.
pub struct WithLinearis<A, B> {
    left: A,
    right: B,
}

impl<A, B> View for WithLinearis<A, B> {
    type V = (A, B);

    /// The two alternatives.
    closed spec fn view(&self) -> (A, B) {
        (self.left, self.right)
    }
}

impl<A, B> WithLinearis<A, B> {
    /// Create a new additive product.
    pub fn new(left: A, right: B) -> (r: Self)
        ensures
            r@ == (left, right),
    {
        WithLinearis { left, right }
    }

    /// Choose the left alternative, dropping the right.
    pub fn choose_left(self) -> (r: A)
        ensures
            r == self@.0,
    {
        self.left
    }

    /// Choose the right alternative, dropping the left.
    pub fn choose_right(self) -> (r: B)
        ensures
            r == self@.1,
    {
        self.right
    }

    /// Choose an alternative by a runtime flag (`true` picks the left one).
    pub fn eligere(self, left: bool) -> (r: AdditiveChoice<A, B>)
        ensures
            left ==> r == AdditiveChoice::<A, B>::Left(self@.0),
            !left ==> r == AdditiveChoice::<A, B>::Right(self@.1),
    {
        if left {
            AdditiveChoice::Left(self.left)
        } else {
            AdditiveChoice::Right(self.right)
        }
    }

    /// A reference to the left alternative.
    pub fn project_left(&self) -> (r: &A)
        ensures
            *r == self@.0,
    {
        &self.left
    }

    /// A reference to the right alternative.
    pub fn project_right(&self) -> (r: &B)
        ensures
            *r == self@.1,
    {
        &self.right
    }

    /// Map over the left alternative.
    pub fn map_left<C, F>(self, f: F) -> (r: WithLinearis<C, B>) where F: FnOnce(A) -> C
        requires
            f.requires((self@.0,)),
        ensures
            f.ensures((self@.0,), r@.0),
            r@.1 == self@.1,
    {
        WithLinearis::new(f(self.left), self.right)
    }

    /// Map over the right alternative.
    pub fn map_right<C, F>(self, f: F) -> (r: WithLinearis<A, C>) where F: FnOnce(B) -> C
        requires
            f.requires((self@.1,)),
        ensures
            r@.0 == self@.0,
            f.ensures((self@.1,), r@.1),
    {
        WithLinearis::new(self.left, f(self.right))
    }

    /// Map over both alternatives.
    pub fn bimap<C, D, F, G>(self, f: F, g: G) -> (r: WithLinearis<C, D>) where
        F: FnOnce(A) -> C,
        G: FnOnce(B) -> D,

        requires
            f.requires((self@.0,)),
            g.requires((self@.1,)),
        ensures
            f.ensures((self@.0,), r@.0),
            g.ensures((self@.1,), r@.1),
    {
        WithLinearis::new(f(self.left), g(self.right))
    }

    /// Swap the alternatives.
    pub fn swap(self) -> (r: WithLinearis<B, A>)
        ensures
            r@ == (self@.1, self@.0),
    {
        WithLinearis::new(self.right, self.left)
    }
}

impl<A: Clone, B: Clone> Clone for WithLinearis<A, B> {
    /// Clone both alternatives.
    fn clone(&self) -> (r: Self)
        ensures
            cloned(self@.0, r@.0),
            cloned(self@.1, r@.1),
    {
        WithLinearis::new(self.left.clone(), self.right.clone())
    }
}

/// The result of choosing from an additive product.
#[derive(Debug, Clone, Copy, PartialEq, Eq, Hash)]
pub enum AdditiveChoice<A, B> {
    /// The left alternative was chosen.
    Left(A),
    /// The right alternative was chosen.
    Right(B),
}

impl<A, B> AdditiveChoice<A, B> {
    /// Whether the left alternative was chosen.
    pub fn is_left(&self) -> (r: bool)
        ensures
            r == (self is Left),
    {
        matches!(self, AdditiveChoice::Left(_))
    }

    /// Whether the right alternative was chosen.
    pub fn is_right(&self) -> (r: bool)
        ensures
            r == (self is Right),
    {
        matches!(self, AdditiveChoice::Right(_))
    }

    /// The left value, if chosen.
    pub fn left(self) -> (r: Option<A>)
        ensures
            match self {
                AdditiveChoice::Left(a) => r == Some(a),
                AdditiveChoice::Right(_) => r is None,
            },
    {
        match self {
            AdditiveChoice::Left(a) => Some(a),
            AdditiveChoice::Right(_) => None,
        }
    }

    /// The right value, if chosen.
    pub fn right(self) -> (r: Option<B>)
        ensures
            match self {
                AdditiveChoice::Left(_) => r is None,
                AdditiveChoice::Right(b) => r == Some(b),
            },
    {
        match self {
            AdditiveChoice::Left(_) => None,
            AdditiveChoice::Right(b) => Some(b),
        }
    }

    /// Map over both alternatives.
    pub fn bimap<C, D, F, G>(self, f: F, g: G) -> (r: AdditiveChoice<C, D>) where
        F: FnOnce(A) -> C,
        G: FnOnce(B) -> D,

        requires
            self matches AdditiveChoice::Left(a) ==> f.requires((a,)),
            self matches AdditiveChoice::Right(b) ==> g.requires((b,)),
        ensures
            match self {
                AdditiveChoice::Left(a) => r matches AdditiveChoice::Left(c) && f.ensures((a,), c),
                AdditiveChoice::Right(b) => r matches AdditiveChoice::Right(d) && g.ensures((b,), d),
            },
    {
        match self {
            AdditiveChoice::Left(a) => AdditiveChoice::Left(f(a)),
            AdditiveChoice::Right(b) => AdditiveChoice::Right(g(b)),
        }
    }

    /// Eliminate the choice with one function per alternative.
    pub fn fold<C, F, G>(self, f: F, g: G) -> (r: C) where F: FnOnce(A) -> C, G: FnOnce(B) -> C
        requires
            self matches AdditiveChoice::Left(a) ==> f.requires((a,)),
            self matches AdditiveChoice::Right(b) ==> g.requires((b,)),
        ensures
            match self {
                AdditiveChoice::Left(a) => f.ensures((a,), r),
                AdditiveChoice::Right(b) => g.ensures((b,), r),
            },
    {
        match self {
            AdditiveChoice::Left(a) => f(a),
            AdditiveChoice::Right(b) => g(b),
        }
    }
}

} // verus!
