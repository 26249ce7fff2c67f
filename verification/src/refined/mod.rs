//! Refinement types: values paired with a predicate they are guaranteed
//! to satisfy.

pub mod combinators;
pub mod predicate;
pub mod wrapper;

pub use combinators::{
    Aequivalentia, Aliquis, All, And, Any, Aut, Et, Iff, Implicatio, Implies, Non, Not, Omnes, Or,
    Vel, Xor,
};
pub use predicate::{
    EvidentiaPredicati, ExitusPraedicati, Praedicatum, Predicate, Validatus, check_predicate,
    exitus_of, validation_outcome,
};
pub use wrapper::{AedificatorRefinati, Refinatus, Refined, RefinementError, refine};
