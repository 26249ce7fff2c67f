//! Field access, extension, removal, merging, renaming and modification
//! on records built as heterogeneous lists of labelled fields.

use crate::hlist::{Coniunctio, HList, Nihil};
use crate::indices::{Here, There};
use crate::labelled::{Field, campus_nominatus, field_with_name};
use vstd::prelude::*;

verus! {

/// Records that hold a field under `Label` with a value of type `Value`,
/// found at position `Index`.
pub trait HabetCampum<Label, Value, Index>: Sized {
    /// The value of the field.
    spec fn campus(&self) -> Value;

    /// The record with the field's value replaced by `value`, all else kept.
    spec fn cum_campo(&self, value: Value) -> Self;

    /// Reading the field after writing `value` into it gives `value`.
    proof fn lemma_scriptum_legitur(&self, value: Value)
        ensures
            self.cum_campo(value).campus() == value,
    ;

    /// A reference to the field's value.
    fn get_field(&self) -> (r: &Value)
        ensures
            *r == self.campus(),
    ;

    /// A mutable reference to the field's value; what is written through it
    /// lands in that field and nowhere else.
    fn get_field_mut(&mut self) -> (r: &mut Value)
        ensures
            *r == old(self).campus(),
            *final(self) == old(self).cum_campo(*final(r)),
    ;
}

impl<Label, Value, Tail: HList> HabetCampum<Label, Value, Here> for Coniunctio<
    Field<Label, Value>,
    Tail,
> {
    open spec fn campus(&self) -> Value {
        self.head.value
    }

    open spec fn cum_campo(&self, value: Value) -> Self {
        Coniunctio { head: Field { value, ..self.head }, tail: self.tail }
    }

    proof fn lemma_scriptum_legitur(&self, value: Value) {
    }

    fn get_field(&self) -> (r: &Value) {
        &self.head.value
    }

    fn get_field_mut(&mut self) -> (r: &mut Value) {
        &mut self.head.value
    }
}

impl<Label, Value, Head, Tail, TailIndex> HabetCampum<Label, Value, There<TailIndex>> for Coniunctio<
    Head,
    Tail,
> where Tail: HabetCampum<Label, Value, TailIndex> {
    open spec fn campus(&self) -> Value {
        self.tail.campus()
    }

    open spec fn cum_campo(&self, value: Value) -> Self {
        Coniunctio { head: self.head, tail: self.tail.cum_campo(value) }
    }

    proof fn lemma_scriptum_legitur(&self, value: Value) {
        self.tail.lemma_scriptum_legitur(value);
    }

    fn get_field(&self) -> (r: &Value) {
        self.tail.get_field()
    }

    fn get_field_mut(&mut self) -> (r: &mut Value) {
        self.tail.get_field_mut()
    }
}

/// Records that can take one more field in front.
pub trait Extendo<Label, Value>: Sized {
    /// The record with the new field.
    type Output;

    /// The record with a field named `name` holding `value` in front.
    spec fn extensum(self, name: &'static str, value: Value) -> Self::Output;

    /// Put a field named `name` holding `value` in front of the record.
    fn extend(self, name: &'static str, value: Value) -> (r: Self::Output)
        ensures
            r == self.extensum(name, value),
    ;
}

impl<Label, Value> Extendo<Label, Value> for Nihil {
    type Output = Coniunctio<Field<Label, Value>, Nihil>;

    open spec fn extensum(self, name: &'static str, value: Value) -> Self::Output {
        Coniunctio { head: campus_nominatus(name, value), tail: Nihil }
    }

    fn extend(self, name: &'static str, value: Value) -> (r: Self::Output) {
        Coniunctio { head: field_with_name(name, value), tail: Nihil }
    }
}

impl<Label, Value, Head, Tail: HList> Extendo<Label, Value> for Coniunctio<Head, Tail> {
    type Output = Coniunctio<Field<Label, Value>, Coniunctio<Head, Tail>>;

    open spec fn extensum(self, name: &'static str, value: Value) -> Self::Output {
        Coniunctio { head: campus_nominatus(name, value), tail: self }
    }

    fn extend(self, name: &'static str, value: Value) -> (r: Self::Output) {
        Coniunctio { head: field_with_name(name, value), tail: self }
    }
}

/// Records from which the field under `Label`, at position `Index`, can be
/// taken out.
pub trait Restricto<Label, Index>: Sized {
    /// The type of the field's value.
    type Value;

    /// The record without the field.
    type Remainder;

    /// The field's value and the record without it, the other fields in
    /// their order.
    spec fn restrictum(self) -> (Self::Value, Self::Remainder);

    /// Take the field out: its value and the rest of the record.
    fn restrict(self) -> (r: (Self::Value, Self::Remainder))
        ensures
            r == self.restrictum(),
    ;
}

impl<Label, Value, Tail: HList> Restricto<Label, Here> for Coniunctio<Field<Label, Value>, Tail> {
    type Value = Value;

    type Remainder = Tail;

    open spec fn restrictum(self) -> (Self::Value, Self::Remainder) {
        (self.head.value, self.tail)
    }

    fn restrict(self) -> (r: (Self::Value, Self::Remainder)) {
        (self.head.value, self.tail)
    }
}

impl<Label, Head, Tail, TailIndex> Restricto<Label, There<TailIndex>> for Coniunctio<
    Head,
    Tail,
> where Tail: Restricto<Label, TailIndex> {
    type Value = Tail::Value;

    type Remainder = Coniunctio<Head, Tail::Remainder>;

    open spec fn restrictum(self) -> (Self::Value, Self::Remainder) {
        (self.tail.restrictum().0, Coniunctio { head: self.head, tail: self.tail.restrictum().1 })
    }

    fn restrict(self) -> (r: (Self::Value, Self::Remainder)) {
        let (value, tail_remainder) = self.tail.restrict();
        (value, Coniunctio { head: self.head, tail: tail_remainder })
    }
}

/// Records that can be joined with a record of type `Other`.
pub trait Confluo<Other>: Sized {
    /// The joined record.
    type Output;

    /// The fields of `self` followed by those of `other`.
    spec fn confluens(self, other: Other) -> Self::Output;

    /// Join the two records: the fields of `self`, then those of `other`.
    fn merge(self, other: Other) -> (r: Self::Output)
        ensures
            r == self.confluens(other),
    ;
}

impl<T: HList> Confluo<Nihil> for T {
    type Output = T;

    open spec fn confluens(self, other: Nihil) -> Self::Output {
        self
    }

    fn merge(self, other: Nihil) -> (r: Self::Output) {
        self
    }
}

impl<Head, Tail: HList> Confluo<Coniunctio<Head, Tail>> for Nihil {
    type Output = Coniunctio<Head, Tail>;

    open spec fn confluens(self, other: Coniunctio<Head, Tail>) -> Self::Output {
        other
    }

    fn merge(self, other: Coniunctio<Head, Tail>) -> (r: Self::Output) {
        other
    }
}

impl<H1, T1: HList + Confluo<Coniunctio<H2, T2>>, H2, T2: HList> Confluo<Coniunctio<H2, T2>> for Coniunctio<
    H1,
    T1,
> {
    type Output = Coniunctio<H1, T1::Output>;

    open spec fn confluens(self, other: Coniunctio<H2, T2>) -> Self::Output {
        Coniunctio { head: self.head, tail: self.tail.confluens(other) }
    }

    fn merge(self, other: Coniunctio<H2, T2>) -> (r: Self::Output) {
        Coniunctio { head: self.head, tail: self.tail.merge(other) }
    }
}

/// Records whose field under `OldLabel`, at position `Index`, can be moved
/// under `NewLabel`.
pub trait Renomino<OldLabel, NewLabel, Index>: Sized {
    /// The record with the field renamed.
    type Output;

    /// The record with the field under the new label and runtime name
    /// `new_name`, its value and all other fields kept.
    spec fn renominatum(self, new_name: &'static str) -> Self::Output;

    /// Rename the field.
    fn rename(self, new_name: &'static str) -> (r: Self::Output)
        ensures
            r == self.renominatum(new_name),
    ;
}

impl<OldLabel, NewLabel, Value, Tail: HList> Renomino<OldLabel, NewLabel, Here> for Coniunctio<
    Field<OldLabel, Value>,
    Tail,
> {
    type Output = Coniunctio<Field<NewLabel, Value>, Tail>;

    open spec fn renominatum(self, new_name: &'static str) -> Self::Output {
        Coniunctio { head: campus_nominatus(new_name, self.head.value), tail: self.tail }
    }

    fn rename(self, new_name: &'static str) -> (r: Self::Output) {
        Coniunctio { head: field_with_name(new_name, self.head.value), tail: self.tail }
    }
}

impl<OldLabel, NewLabel, Head, Tail, TailIndex> Renomino<
    OldLabel,
    NewLabel,
    There<TailIndex>,
> for Coniunctio<Head, Tail> where Tail: Renomino<OldLabel, NewLabel, TailIndex> {
    type Output = Coniunctio<Head, Tail::Output>;

    open spec fn renominatum(self, new_name: &'static str) -> Self::Output {
        Coniunctio { head: self.head, tail: self.tail.renominatum(new_name) }
    }

    fn rename(self, new_name: &'static str) -> (r: Self::Output) {
        Coniunctio { head: self.head, tail: self.tail.rename(new_name) }
    }
}

/// Records whose field under `Label`, at position `Index`, can be replaced
/// by a value of type `NewValue` computed from the old one.
pub trait Muto<Label, NewValue, Index>: Sized {
    /// The type of the field's value before the change.
    type OldValue;

    /// The record after the change.
    type Output;

    /// The field's value before the change.
    spec fn vetus(self) -> Self::OldValue;

    /// The record with the field holding `value`, its name and all other
    /// fields kept.
    spec fn mutatum(self, value: NewValue) -> Self::Output;

    /// Replace the field's value by what `f` makes of it.
    fn modify<F>(self, f: F) -> (r: Self::Output) where F: FnOnce(Self::OldValue) -> NewValue
        requires
            f.requires((self.vetus(),)),
        ensures
            exists|v: NewValue| f.ensures((self.vetus(),), v) && r == self.mutatum(v),
    ;
}

impl<Label, OldValue, NewValue, Tail: HList> Muto<Label, NewValue, Here> for Coniunctio<
    Field<Label, OldValue>,
    Tail,
> {
    type OldValue = OldValue;

    type Output = Coniunctio<Field<Label, NewValue>, Tail>;

    open spec fn vetus(self) -> Self::OldValue {
        self.head.value
    }

    open spec fn mutatum(self, value: NewValue) -> Self::Output {
        Coniunctio { head: campus_nominatus(self.head.name, value), tail: self.tail }
    }

    fn modify<F>(self, f: F) -> (r: Self::Output) where F: FnOnce(Self::OldValue) -> NewValue {
        let ghost before = self;
        let v = f(self.head.value);
        let r = Coniunctio { head: field_with_name(self.head.name, v), tail: self.tail };
        assert(f.ensures((<Self as Muto<Label, NewValue, Here>>::vetus(before),), v) && r
            == <Self as Muto<Label, NewValue, Here>>::mutatum(before, v));
        r
    }
}

impl<Label, NewValue, Head, Tail, TailIndex> Muto<Label, NewValue, There<TailIndex>> for Coniunctio<
    Head,
    Tail,
> where Tail: Muto<Label, NewValue, TailIndex> {
    type OldValue = Tail::OldValue;

    type Output = Coniunctio<Head, Tail::Output>;

    open spec fn vetus(self) -> Self::OldValue {
        self.tail.vetus()
    }

    open spec fn mutatum(self, value: NewValue) -> Self::Output {
        Coniunctio { head: self.head, tail: self.tail.mutatum(value) }
    }

    fn modify<F>(self, f: F) -> (r: Self::Output) where F: FnOnce(Self::OldValue) -> NewValue {
        let ghost before = self;
        let tail = self.tail.modify(f);
        let ghost v = choose|v: NewValue|
            f.ensures((before.tail.vetus(),), v) && tail == before.tail.mutatum(v);
        let r = Coniunctio { head: self.head, tail };
        assert(f.ensures((<Self as Muto<Label, NewValue, There<TailIndex>>>::vetus(before),), v)
            && r == <Self as Muto<Label, NewValue, There<TailIndex>>>::mutatum(before, v));
        r
    }
}

/// What is written into a field is what is read from it afterwards.
pub proof fn law_field_write_read<Label, Value, Index, R: HabetCampum<Label, Value, Index>>(
    record: R,
    value: Value,
)
    ensures
        <R as HabetCampum<Label, Value, Index>>::campus(
            &<R as HabetCampum<Label, Value, Index>>::cum_campo(&record, value),
        ) == value,
{
    record.lemma_scriptum_legitur(value);
}

/// Taking out the field that was just put in front gives back its value
/// and the record as it was.
pub proof fn law_restrict_undoes_extend<Label, Value, Head, Tail: HList>(
    record: Coniunctio<Head, Tail>,
    name: &'static str,
    value: Value,
)
    ensures
        <Coniunctio<Field<Label, Value>, Coniunctio<Head, Tail>> as Restricto<
            Label,
            Here,
        >>::restrictum(<Coniunctio<Head, Tail> as Extendo<Label, Value>>::extensum(record, name, value))
            == (value, record),
        <Coniunctio<Field<Label, Value>, Nihil> as Restricto<Label, Here>>::restrictum(
            <Nihil as Extendo<Label, Value>>::extensum(Nihil, name, value),
        ) == (value, Nihil),
{
}

/// The field put in front is found at the head, holding its value.
pub proof fn law_extend_then_get<Label, Value, Head, Tail: HList>(
    record: Coniunctio<Head, Tail>,
    name: &'static str,
    value: Value,
)
    ensures
        <Coniunctio<Field<Label, Value>, Coniunctio<Head, Tail>> as HabetCampum<
            Label,
            Value,
            Here,
        >>::campus(&<Coniunctio<Head, Tail> as Extendo<Label, Value>>::extensum(record, name, value))
            == value,
        <Coniunctio<Field<Label, Value>, Nihil> as HabetCampum<Label, Value, Here>>::campus(
            &<Nihil as Extendo<Label, Value>>::extensum(Nihil, name, value),
        ) == value,
{
}

/// Joining with the empty record changes nothing, on either side.
pub proof fn law_merge_empty<T: HList, Head, Tail: HList>(record: T, other: Coniunctio<Head, Tail>)
    ensures
        <T as Confluo<Nihil>>::confluens(record, Nihil) == record,
        <Nihil as Confluo<Coniunctio<Head, Tail>>>::confluens(Nihil, other) == other,
{
}

/// Putting a field in front makes the record one field longer.
pub proof fn law_extend_len<Label, Value, Head, Tail: HList>(
    record: Coniunctio<Head, Tail>,
    name: &'static str,
    value: Value,
)
    ensures
        <Coniunctio<Head, Tail> as Extendo<Label, Value>>::extensum(
            record,
            name,
            value,
        ).longitudo() == record.longitudo() + 1,
        <Nihil as Extendo<Label, Value>>::extensum(Nihil, name, value).longitudo() == 1,
{
}

} // verus!
