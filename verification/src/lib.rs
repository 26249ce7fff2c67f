//! Functional programming building blocks with verified contracts:
//! quantitative (linear) types, refinement types, extensible rows,
//! supervision trees, tracing contexts and monad transformers.

pub mod quantitative;
pub mod actio;
pub mod recursion;
pub mod specialization;
pub mod tailrec;
pub mod refined;
pub mod numerus;
pub(crate) mod lemmata;
pub mod supervision;
pub mod tracing;
pub mod typeclasses;
pub mod transformers;
pub mod traits;
pub mod hlist;
pub mod labelled;
pub mod indices;
pub mod rows;
