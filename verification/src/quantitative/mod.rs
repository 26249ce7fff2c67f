//! Quantitative types: multiplicity tracking inspired by Quantitative Type
//! Theory (0 = erased, 1 = linear, ω = unrestricted).

pub mod multiplicitas;

pub use multiplicitas::{
    Multiplicitas, MultiplicitasSemiring, Nihil, Omega, Semel, Usage, is_subusage, mult_add,
    mult_mul,
};
pub mod functio;

pub use functio::{
    FunctioLinearis, FunctioSemel, linear_apply, linear_compose, linear_const, linear_curry,
    linear_flip, linear_uncurry,
};
pub mod qtt;

pub use qtt::{Qtt, QttErasum, QttExt, QttLiber, QttLinearis};
pub mod monas;

pub use monas::{
    QttMonad, bind_qtt, join_qtt, kleisli_qtt, lift2_qtt, map2_qtt, map3_qtt, purus_qtt,
    sequence_qtt, traverse_qtt,
};
pub mod par;

pub use par::{AdditiveChoice, ParLinearis, TensorLinearis, WithLinearis};
pub mod manus;

pub use manus::ManusLinearis;
