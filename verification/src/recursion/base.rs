//! Base functors of recursive data types: each describes one layer of the
//! structure, with the recursive positions abstracted as `R`.

use core::marker::PhantomData;
use vstd::prelude::*;

verus! {

/// One layer of a natural number: zero, or the successor of `R`.
#[derive(Debug, Clone, Copy, PartialEq, Eq)]
pub enum NatF<R> {
    /// Zero.
    ZeroF,
    /// Successor of the recursive position.
    SuccF(R),
}

/// Type-level name of the `NatF` base functor.
pub struct NatFWitness;

impl<R> NatF<R> {
    /// Map over the recursive position.
    pub fn map<B, F>(self, f: F) -> (r: NatF<B>) where F: FnOnce(R) -> B
        requires
            self matches NatF::SuccF(x) ==> f.requires((x,)),
        ensures
            match self {
                NatF::ZeroF => r is ZeroF,
                NatF::SuccF(x) => r matches NatF::SuccF(y) && f.ensures((x,), y),
            },
    {
        match self {
            NatF::ZeroF => NatF::ZeroF,
            NatF::SuccF(r) => NatF::SuccF(f(r)),
        }
    }
}

/// One layer of a list: empty, or an element `A` and the rest `R`.
#[derive(Debug, Clone, PartialEq, Eq)]
pub enum ListF<A, R> {
    /// The empty list.
    NilF,
    /// An element followed by the recursive position.
    ConsF(A, R),
}

/// Type-level name of the `ListF<A, _>` base functor.
pub struct ListFWitness<A>(pub PhantomData<A>);

impl<A, R> ListF<A, R> {
    /// Map over the recursive position.
    pub fn map_rec<B, F>(self, f: F) -> (r: ListF<A, B>) where F: FnOnce(R) -> B
        requires
            self matches ListF::ConsF(_, x) ==> f.requires((x,)),
        ensures
            match self {
                ListF::NilF => r is NilF,
                ListF::ConsF(a, x) => r matches ListF::ConsF(a2, y) && a2 == a && f.ensures((x,), y),
            },
    {
        match self {
            ListF::NilF => ListF::NilF,
            ListF::ConsF(a, r) => ListF::ConsF(a, f(r)),
        }
    }

    /// Map over the element.
    pub fn map_elem<B, F>(self, f: F) -> (r: ListF<B, R>) where F: FnOnce(A) -> B
        requires
            self matches ListF::ConsF(a, _) ==> f.requires((a,)),
        ensures
            match self {
                ListF::NilF => r is NilF,
                ListF::ConsF(a, x) => r matches ListF::ConsF(b, x2) && x2 == x && f.ensures((a,), b),
            },
    {
        match self {
            ListF::NilF => ListF::NilF,
            ListF::ConsF(a, r) => ListF::ConsF(f(a), r),
        }
    }
}

/// One layer of a binary tree: empty, or a node with a value and two
/// recursive positions.
#[derive(Debug, Clone, PartialEq, Eq)]
pub enum TreeF<A, R> {
    /// The empty tree.
    EmptyF,
    /// A node: value, left subtree, right subtree.
    NodeF(A, R, R),
}

/// Type-level name of the `TreeF<A, _>` base functor.
pub struct TreeFWitness<A>(pub PhantomData<A>);

impl<A, R> TreeF<A, R> {
    /// Map over both recursive positions (left first, then right).
    pub fn map_rec<B, F>(self, f: F) -> (r: TreeF<A, B>) where F: Fn(R) -> B
        requires
            self matches TreeF::NodeF(_, l, x) ==> f.requires((l,)) && f.requires((x,)),
        ensures
            match self {
                TreeF::EmptyF => r is EmptyF,
                TreeF::NodeF(a, l, x) => r matches TreeF::NodeF(a2, l2, x2) && a2 == a
                    && f.ensures((l,), l2) && f.ensures((x,), x2),
            },
    {
        match self {
            TreeF::EmptyF => TreeF::EmptyF,
            TreeF::NodeF(a, l, r) => {
                let l2 = f(l);
                let r2 = f(r);
                TreeF::NodeF(a, l2, r2)
            },
        }
    }
}

/// One layer of an optional structure: nothing, or a value and a recursive
/// position.
#[derive(Debug, Clone, Copy, PartialEq, Eq)]
pub enum MaybeF<A, R> {
    /// Nothing.
    NothingF,
    /// A value and the recursive position.
    JustF(A, R),
}

/// Type-level name of the `MaybeF<A, _>` base functor.
pub struct MaybeFWitness<A>(pub PhantomData<A>);

/// One layer of an arithmetic expression.
#[derive(Debug, Clone, PartialEq, Eq)]
pub enum ExprF<R> {
    /// A literal.
    LitF(i64),
    /// Addition of two subexpressions.
    AddF(R, R),
    /// Multiplication of two subexpressions.
    MulF(R, R),
    /// Negation of a subexpression.
    NegF(R),
}

/// Type-level name of the `ExprF` base functor.
pub struct ExprFWitness;

impl<R> ExprF<R> {
    /// Map over the subexpressions (left first, then right).
    pub fn map<B, F>(self, f: F) -> (r: ExprF<B>) where F: Fn(R) -> B
        requires
            self matches ExprF::AddF(l, x) ==> f.requires((l,)) && f.requires((x,)),
            self matches ExprF::MulF(l, x) ==> f.requires((l,)) && f.requires((x,)),
            self matches ExprF::NegF(e) ==> f.requires((e,)),
        ensures
            match self {
                ExprF::LitF(n) => r == ExprF::<B>::LitF(n),
                ExprF::AddF(l, x) => r matches ExprF::AddF(l2, x2) && f.ensures((l,), l2)
                    && f.ensures((x,), x2),
                ExprF::MulF(l, x) => r matches ExprF::MulF(l2, x2) && f.ensures((l,), l2)
                    && f.ensures((x,), x2),
                ExprF::NegF(e) => r matches ExprF::NegF(e2) && f.ensures((e,), e2),
            },
    {
        match self {
            ExprF::LitF(n) => ExprF::LitF(n),
            ExprF::AddF(l, r) => {
                let l2 = f(l);
                let r2 = f(r);
                ExprF::AddF(l2, r2)
            },
            ExprF::MulF(l, r) => {
                let l2 = f(l);
                let r2 = f(r);
                ExprF::MulF(l2, r2)
            },
            ExprF::NegF(e) => ExprF::NegF(f(e)),
        }
    }
}

/// One layer of a rose tree: a value and any number of recursive children.
#[derive(Debug, Clone, PartialEq, Eq)]
pub struct RoseF<A, R> {
    /// The value at this node.
    pub value: A,
    /// The child positions.
    pub children: Vec<R>,
}

/// Type-level name of the `RoseF<A, _>` base functor.
pub struct RoseFWitness<A>(pub PhantomData<A>);

/// `ys` is `f` applied position by position to `xs`.
pub open spec fn mapped_by<R, B, F: Fn(R) -> B>(f: F, xs: Seq<R>, ys: Seq<B>) -> bool {
    &&& ys.len() == xs.len()
    &&& forall|i: int| 0 <= i < xs.len() ==> f.ensures((xs[i],), #[trigger] ys[i])
}

impl<A, R> RoseF<A, R> {
    /// Create a node with the given children.
    pub fn new(value: A, children: Vec<R>) -> (r: Self)
        ensures
            r.value == value,
            r.children == children,
    {
        RoseF { value, children }
    }

    /// Create a node without children.
    pub fn leaf(value: A) -> (r: Self)
        ensures
            r.value == value,
            r.children@ == Seq::<R>::empty(),
    {
        RoseF { value, children: Vec::new() }
    }

    /// Map over every child position, in order.
    pub fn map_rec<B, F>(self, f: F) -> (r: RoseF<A, B>) where F: Fn(R) -> B
        requires
            forall|i: int| 0 <= i < self.children.len() ==> f.requires((#[trigger] self.children@[i],)),
        ensures
            r.value == self.value,
            mapped_by(f, self.children@, r.children@),
    {
        let RoseF { value, children } = self;
        let ghost all = children@;
        let mut out: Vec<B> = Vec::new();
        for c in it: children
            invariant
                it.seq() == all,
                forall|i: int| 0 <= i < all.len() ==> f.requires((#[trigger] all[i],)),
                out.len() == it.index(),
                forall|i: int| 0 <= i < out.len() ==> f.ensures((all[i],), #[trigger] out@[i]),
        {
            out.push(f(c));
        }
        RoseF { value, children: out }
    }
}

} // verus!
