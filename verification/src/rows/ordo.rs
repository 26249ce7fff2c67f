//! Row types: the type-level lists of field labels that a record or a
//! variant carries.

use core::marker::PhantomData;
use crate::hlist::{Coniunctio, HList, Nihil};
use vstd::prelude::*;

verus! {

/// A row: the type-level list of a record's fields.
pub trait Ordo {
    /// The fields, as a heterogeneous list type.
    type Fields: HList;
}

impl Ordo for Nihil {
    type Fields = Nihil;
}

impl<H, T: HList> Ordo for Coniunctio<H, T> {
    type Fields = Coniunctio<H, T>;
}

/// Rows that share no label with `Other`.
pub trait Disiunctus<Other: Ordo>: Ordo {

}

impl Disiunctus<Nihil> for Nihil {

}

impl<H, T: HList> Disiunctus<Coniunctio<H, T>> for Nihil {

}

impl<H, T: HList> Disiunctus<Nihil> for Coniunctio<H, T> {

}

/// The row `Row` with the label `Label` added in front.
pub struct Extensio<Label, Row: Ordo> {
    _label: PhantomData<Label>,
    _row: PhantomData<Row>,
}

impl<Label, Row: Ordo> Ordo for Extensio<Label, Row> {
    type Fields = Coniunctio<Label, Row::Fields>;
}

/// The row `Row` with the label `Label` taken out.
pub struct Restrictio<Label, Row: Ordo> {
    _label: PhantomData<Label>,
    _row: PhantomData<Row>,
}

/// The union of two disjoint rows.
pub struct Unio<R1: Ordo, R2: Ordo> {
    _r1: PhantomData<R1>,
    _r2: PhantomData<R2>,
}

/// Rows that do not hold the label `Label`.
pub trait Carentia<Label>: Ordo {

}

impl<Label> Carentia<Label> for Nihil {

}

/// A row with `Label` in front of `Tail`.
pub type OrdineConiunctio<Label, Tail> = Coniunctio<Label, Tail>;

/// Rows whose number of fields is known at compile time.
pub trait OrdoOps: Ordo {
    /// The number of fields.
    const NUMERUS: usize;
}

impl OrdoOps for Nihil {
    const NUMERUS: usize = 0;
}

impl<H, T: OrdoOps + HList> OrdoOps for Coniunctio<H, T> {
    const NUMERUS: usize = 1 + T::NUMERUS;
}

/// Type-level booleans.
pub trait Bool {
    /// The boolean the type stands for.
    const VALUE: bool;
}

/// Type-level true.
pub struct Verum;

impl Bool for Verum {
    const VALUE: bool = true;
}

/// Type-level false.
pub struct Falsum;

impl Bool for Falsum {
    const VALUE: bool = false;
}

} // verus!
