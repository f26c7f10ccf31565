//! Table groups.

use crate::text::clone_opt_string;
use vstd::prelude::*;

verus! {

/// A member of a table group: an optional schema qualifier and a table name
/// or alias.
#[derive(Debug, PartialEq, Eq, Default)]
pub struct TableGroupId {
    pub name_1: Option<String>,
    pub name_2: String,
}

/// Mathematical model of a [`TableGroupId`].
pub struct TableGroupIdView {
    pub name_1: Option<Seq<char>>,
    pub name_2: Seq<char>,
}

impl View for TableGroupId {
    type V = TableGroupIdView;

    open spec fn view(&self) -> TableGroupIdView {
        TableGroupIdView { name_1: self.name_1.deep_view(), name_2: self.name_2@ }
    }
}

impl DeepView for TableGroupId {
    type V = TableGroupIdView;

    open spec fn deep_view(&self) -> TableGroupIdView {
        self@
    }
}

impl Clone for TableGroupId {
    fn clone(&self) -> (r: Self)
        ensures
            r@ == self@,
    {
        TableGroupId { name_1: clone_opt_string(&self.name_1), name_2: self.name_2.clone() }
    }
}

/// A named group of tables.
#[derive(Debug, PartialEq, Eq, Default)]
pub struct TableGroupBlock {
    pub name: String,
    pub table_ids: Vec<TableGroupId>,
}

/// Mathematical model of a [`TableGroupBlock`].
pub struct TableGroupBlockView {
    pub name: Seq<char>,
    pub table_ids: Seq<TableGroupIdView>,
}

impl View for TableGroupBlock {
    type V = TableGroupBlockView;

    open spec fn view(&self) -> TableGroupBlockView {
        TableGroupBlockView { name: self.name@, table_ids: self.table_ids.deep_view() }
    }
}

impl DeepView for TableGroupBlock {
    type V = TableGroupBlockView;

    open spec fn deep_view(&self) -> TableGroupBlockView {
        self@
    }
}

impl Clone for TableGroupBlock {
    fn clone(&self) -> (r: Self)
        ensures
            r@ == self@,
    {
        let table_ids = self.table_ids.clone();
        assert(table_ids.deep_view() =~= self.table_ids.deep_view());
        TableGroupBlock { name: self.name.clone(), table_ids }
    }
}

} // verus!
