//! Index declarations of a table.

use crate::text::{clone_opt_string, clone_strings};
use vstd::prelude::*;

verus! {

/// Settings of one index.
#[derive(Debug, PartialEq, Eq, Default)]
pub struct IndexesSettings {
    pub index_type: Option<String>,
    pub name: Option<String>,
    pub is_unique: bool,
    pub is_pk: bool,
}

/// Mathematical model of [`IndexesSettings`].
pub struct IndexesSettingsView {
    pub index_type: Option<Seq<char>>,
    pub name: Option<Seq<char>>,
    pub is_unique: bool,
    pub is_pk: bool,
}

impl View for IndexesSettings {
    type V = IndexesSettingsView;

    open spec fn view(&self) -> IndexesSettingsView {
        IndexesSettingsView {
            index_type: self.index_type.deep_view(),
            name: self.name.deep_view(),
            is_unique: self.is_unique,
            is_pk: self.is_pk,
        }
    }
}

impl DeepView for IndexesSettings {
    type V = IndexesSettingsView;

    open spec fn deep_view(&self) -> IndexesSettingsView {
        self@
    }
}

impl Clone for IndexesSettings {
    fn clone(&self) -> (r: Self)
        ensures
            r@ == self@,
    {
        IndexesSettings {
            index_type: clone_opt_string(&self.index_type),
            name: clone_opt_string(&self.name),
            is_unique: self.is_unique,
            is_pk: self.is_pk,
        }
    }
}

/// One index: the columns it covers and its settings.
#[derive(Debug, PartialEq, Eq, Default)]
pub struct IndexesField {
    pub ids: Vec<String>,
    pub settings: Option<IndexesSettings>,
}

/// Mathematical model of an [`IndexesField`].
pub struct IndexesFieldView {
    pub ids: Seq<Seq<char>>,
    pub settings: Option<IndexesSettingsView>,
}

impl View for IndexesField {
    type V = IndexesFieldView;

    open spec fn view(&self) -> IndexesFieldView {
        IndexesFieldView { ids: self.ids.deep_view(), settings: self.settings.deep_view() }
    }
}

impl DeepView for IndexesField {
    type V = IndexesFieldView;

    open spec fn deep_view(&self) -> IndexesFieldView {
        self@
    }
}

impl Clone for IndexesField {
    fn clone(&self) -> (r: Self)
        ensures
            r@ == self@,
    {
        let settings = match &self.settings {
            Some(s) => Some(s.clone()),
            None => None,
        };
        IndexesField { ids: clone_strings(&self.ids), settings }
    }
}

/// The index block of a table.
#[derive(Debug, PartialEq, Eq, Default)]
pub struct IndexesBlock {
    pub fields: Vec<IndexesField>,
}

/// Mathematical model of an [`IndexesBlock`].
pub struct IndexesBlockView {
    pub fields: Seq<IndexesFieldView>,
}

impl View for IndexesBlock {
    type V = IndexesBlockView;

    open spec fn view(&self) -> IndexesBlockView {
        IndexesBlockView { fields: self.fields.deep_view() }
    }
}

impl DeepView for IndexesBlock {
    type V = IndexesBlockView;

    open spec fn deep_view(&self) -> IndexesBlockView {
        self@
    }
}

impl Clone for IndexesBlock {
    fn clone(&self) -> (r: Self)
        ensures
            r@ == self@,
    {
        let fields = self.fields.clone();
        assert(fields.deep_view() =~= self.fields.deep_view());
        IndexesBlock { fields }
    }
}

} // verus!
