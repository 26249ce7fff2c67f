//! Labelled values: a value tagged with a type-level label and a runtime
//! name.

use core::marker::PhantomData;
use vstd::prelude::*;

verus! {

/// A value of type `Value` under the type-level label `Label`, with the
/// label's runtime name.
#[derive(Debug, PartialEq, Eq, PartialOrd, Ord, Hash)]
pub struct Field<Label, Value> {
    /// The runtime name of the field.
    pub name: &'static str,
    /// The value.
    pub value: Value,
    /// The type-level label.
    pub label: PhantomData<Label>,
}

impl<Label, Value: Clone> Clone for Field<Label, Value> {
    /// The same name and label, with a clone of the value.
    fn clone(&self) -> (r: Self)
        ensures
            r.name == self.name,
            cloned(self.value, r.value),
    {
        Field { name: self.name, value: self.value.clone(), label: PhantomData }
    }
}

impl<Label, Value: Copy> Copy for Field<Label, Value> {

}

/// The field that holds `value` under `name`.
pub open spec fn campus_nominatus<Label, Value>(name: &'static str, value: Value) -> Field<
    Label,
    Value,
> {
    Field { name, value, label: PhantomData }
}

/// Tag `value` with the label `Label` and the runtime name `name`.
pub fn field_with_name<Label, Value>(name: &'static str, value: Value) -> (r: Field<Label, Value>)
    ensures
        r == campus_nominatus::<Label, Value>(name, value),
{
    Field { name, value, label: PhantomData }
}

} // verus!
