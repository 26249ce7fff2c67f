//! `Registrum`: an extensible record over a heterogeneous list of labelled
//! fields.

use crate::hlist::{HList, Nihil};
use super::campus::{Confluo, Extendo, HabetCampum, Muto, Restricto};
use vstd::prelude::*;

verus! {

/// An extensible record whose fields `R` are tracked at the type level.
#[derive(Debug, Clone, PartialEq, Eq, PartialOrd, Ord, Hash)]
pub struct Registrum<R> {
    pub(crate) fields: R,
}

impl<R> View for Registrum<R> {
    type V = R;

    /// The record is its list of fields.
    closed spec fn view(&self) -> R {
        self.fields
    }
}

impl Registrum<Nihil> {
    /// The record with no fields.
    pub fn new() -> (r: Self)
        ensures
            r@ == Nihil,
    {
        Registrum { fields: Nihil }
    }
}

impl Default for Registrum<Nihil> {
    /// Same as `new`.
    fn default() -> (r: Self)
        ensures
            r@ == Nihil,
    {
        Self::new()
    }
}

impl<R: HList> Registrum<R> {
    /// The record over the list of fields `fields`.
    pub fn from_hlist(fields: R) -> (r: Self)
        ensures
            r@ == fields,
    {
        Registrum { fields }
    }

    /// The record's list of fields.
    pub fn into_hlist(self) -> (r: R)
        ensures
            r == self@,
    {
        self.fields
    }

    /// A reference to the record's list of fields.
    pub fn as_hlist(&self) -> (r: &R)
        ensures
            *r == self@,
    {
        &self.fields
    }

    /// The number of fields.
    pub fn len(&self) -> (n: usize)
        requires
            self@.longitudo() <= usize::MAX,
        ensures
            n == self@.longitudo(),
    {
        self.fields.len()
    }

    /// Whether the record has no fields.
    pub fn is_empty(&self) -> (b: bool)
        ensures
            b == (self@.longitudo() == 0),
    {
        self.fields.is_empty()
    }
}

impl<R> Registrum<R> {
    /// The record with a field named `name`, under `Label`, holding `value`
    /// in front.
    pub fn extend_field<Label, Value>(self, name: &'static str, value: Value) -> (r: Registrum<
        R::Output,
    >) where R: Extendo<Label, Value>
        ensures
            r@ == <R as Extendo<Label, Value>>::extensum(self@, name, value),
    {
        Registrum { fields: self.fields.extend(name, value) }
    }

    /// A reference to the value of the field under `Label`.
    pub fn get<Label, Value, Index>(&self) -> (r: &Value) where R: HabetCampum<Label, Value, Index>
        ensures
            *r == <R as HabetCampum<Label, Value, Index>>::campus(&self@),
    {
        self.fields.get_field()
    }

    /// A mutable reference to the value of the field under `Label`; what is
    /// written through it lands in that field and nowhere else.
    pub fn get_mut<Label, Value, Index>(&mut self) -> (r: &mut Value) where
        R: HabetCampum<Label, Value, Index>,

        ensures
            *r == <R as HabetCampum<Label, Value, Index>>::campus(&old(self)@),
            final(self)@ == <R as HabetCampum<Label, Value, Index>>::cum_campo(
                &old(self)@,
                *final(r),
            ),
    {
        self.fields.get_field_mut()
    }

    /// Take the field under `Label` out: its value and the rest of the
    /// record.
    pub fn restrict<Label, Index>(self) -> (r: (R::Value, Registrum<R::Remainder>)) where
        R: Restricto<Label, Index>,

        ensures
            r.0 == <R as Restricto<Label, Index>>::restrictum(self@).0,
            r.1@ == <R as Restricto<Label, Index>>::restrictum(self@).1,
    {
        let (value, remainder) = self.fields.restrict();
        (value, Registrum { fields: remainder })
    }

    /// Join with `other`: the fields of `self`, then those of `other`.
    pub fn merge<Other>(self, other: Registrum<Other>) -> (r: Registrum<R::Output>) where
        R: Confluo<Other>,

        ensures
            r@ == <R as Confluo<Other>>::confluens(self@, other@),
    {
        Registrum { fields: self.fields.merge(other.fields) }
    }

    /// Replace the value of the field under `Label` by what `f` makes of it.
    pub fn modify<Label, NewValue, Index, F>(self, f: F) -> (r: Registrum<R::Output>) where
        R: Muto<Label, NewValue, Index>,
        F: FnOnce(R::OldValue) -> NewValue,

        requires
            f.requires((<R as Muto<Label, NewValue, Index>>::vetus(self@),)),
        ensures
            exists|v: NewValue|
                f.ensures((<R as Muto<Label, NewValue, Index>>::vetus(self@),), v) && r@
                    == <R as Muto<Label, NewValue, Index>>::mutatum(self@, v),
    {
        Registrum { fields: self.fields.modify(f) }
    }
}

/// Records that can be handed whole to a function.
pub trait RegistrumExt<R>: Sized {
    /// The record handed on.
    spec fn registrum(self) -> Registrum<R>;

    /// Apply `f` to the record.
    fn with<F, T>(self, f: F) -> (r: T) where F: FnOnce(Registrum<R>) -> T
        requires
            f.requires((self.registrum(),)),
        ensures
            f.ensures((self.registrum(),), r),
    ;
}

impl<R> RegistrumExt<R> for Registrum<R> {
    open spec fn registrum(self) -> Registrum<R> {
        self
    }

    fn with<F, T>(self, f: F) -> (r: T) where F: FnOnce(Registrum<R>) -> T {
        f(self)
    }
}

impl<R: HList> From<R> for Registrum<R> {
    /// Same as `from_hlist`.
    fn from(fields: R) -> (r: Self)
        ensures
            r@ == fields,
    {
        Registrum { fields }
    }
}

impl<R: HList> vstd::std_specs::convert::FromSpecImpl<R> for Registrum<R> {
    open spec fn obeys_from_spec() -> bool {
        true
    }

    closed spec fn from_spec(fields: R) -> Self {
        Registrum { fields }
    }
}

} // verus!
