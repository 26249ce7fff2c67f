//! Recursion schemes: base functors of recursive types and the sum used by
//! apomorphisms.

pub mod base;
pub mod free;

pub use base::{
    ExprF, ExprFWitness, ListF, ListFWitness, MaybeF, MaybeFWitness, NatF, NatFWitness, RoseF,
    RoseFWitness, TreeF, TreeFWitness, mapped_by,
};
pub use free::Aut;
