//! Enumeration declarations.

use crate::text::clone_opt_string;
use vstd::prelude::*;

verus! {

/// One value of an enumeration, with its note.
#[derive(Debug, PartialEq, Eq, Default)]
pub struct EnumValue {
    pub value: String,
    pub note: String,
}

/// Mathematical model of an [`EnumValue`].
pub struct EnumValueView {
    pub value: Seq<char>,
    pub note: Seq<char>,
}

impl View for EnumValue {
    type V = EnumValueView;

    open spec fn view(&self) -> EnumValueView {
        EnumValueView { value: self.value@, note: self.note@ }
    }
}

impl DeepView for EnumValue {
    type V = EnumValueView;

    open spec fn deep_view(&self) -> EnumValueView {
        self@
    }
}

impl Clone for EnumValue {
    fn clone(&self) -> (r: Self)
        ensures
            r@ == self@,
    {
        EnumValue { value: self.value.clone(), note: self.note.clone() }
    }
}

/// Identity of an enumeration: its name and the schema it belongs to.
#[derive(Debug, PartialEq, Eq, Default)]
pub struct EnumId {
    pub name: String,
    pub schema: Option<String>,
}

/// Mathematical model of an [`EnumId`].
pub struct EnumIdView {
    pub name: Seq<char>,
    pub schema: Option<Seq<char>>,
}

impl View for EnumId {
    type V = EnumIdView;

    open spec fn view(&self) -> EnumIdView {
        EnumIdView { name: self.name@, schema: self.schema.deep_view() }
    }
}

impl DeepView for EnumId {
    type V = EnumIdView;

    open spec fn deep_view(&self) -> EnumIdView {
        self@
    }
}

impl Clone for EnumId {
    fn clone(&self) -> (r: Self)
        ensures
            r@ == self@,
    {
        EnumId { name: self.name.clone(), schema: clone_opt_string(&self.schema) }
    }
}

/// An enumeration: its identity and its values in declaration order.
#[derive(Debug, PartialEq, Eq, Default)]
pub struct EnumBlock {
    pub id: EnumId,
    pub values: Vec<EnumValue>,
}

/// Mathematical model of an [`EnumBlock`].
pub struct EnumBlockView {
    pub id: EnumIdView,
    pub values: Seq<EnumValueView>,
}

impl View for EnumBlock {
    type V = EnumBlockView;

    open spec fn view(&self) -> EnumBlockView {
        EnumBlockView { id: self.id@, values: self.values.deep_view() }
    }
}

impl DeepView for EnumBlock {
    type V = EnumBlockView;

    open spec fn deep_view(&self) -> EnumBlockView {
        self@
    }
}

impl Clone for EnumBlock {
    fn clone(&self) -> (r: Self)
        ensures
            r@ == self@,
    {
        let values = self.values.clone();
        assert(values.deep_view() =~= self.values.deep_view());
        EnumBlock { id: self.id.clone(), values }
    }
}

} // verus!
