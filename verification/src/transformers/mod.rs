//! Monad transformers: composing a monadic effect on top of a base monad.

pub mod option_t;
pub mod either_t;
pub mod reader_t;
pub mod state_t;
pub mod writer_t;
pub mod ecclesia;

pub use option_t::OptionT;
pub use either_t::EitherT;
pub use reader_t::ReaderT;
pub use state_t::StateT;
pub use writer_t::{LogScriptor, Scriptor};

use vstd::prelude::*;

verus! {

/// A monad transformer: a type that can lift a computation of its base
/// monad.
pub trait MonadTransformer: Sized {
    /// The base monad.
    type BaseMonad;

    /// Whether `r` is the computation `base` lifted into the transformer.
    spec fn elevatum(base: Self::BaseMonad, r: Self) -> bool;

    /// Lift a computation of the base monad into the transformer.
    fn lift(base: Self::BaseMonad) -> (r: Self)
        ensures
            Self::elevatum(base, r),
    ;
}

/// Lift a computation of a base monad into the transformer `T`.
pub fn lift<T, M>(m: M) -> (r: T) where T: MonadTransformer<BaseMonad = M>
    ensures
        T::elevatum(m, r),
{
    T::lift(m)
}

} // verus!
