//! The whole schema description, as parsed.

use crate::ast::enums::{EnumBlock, EnumBlockView};
use crate::ast::project::{ProjectBlock, ProjectBlockView};
use crate::ast::refs::{RefBlock, RefBlockView};
use crate::ast::table::{TableBlock, TableBlockView};
use crate::ast::table_group::{TableGroupBlock, TableGroupBlockView};
use vstd::prelude::*;

verus! {

/// A parsed schema description.
#[derive(Debug, PartialEq, Eq, Default)]
pub struct SchemaBlock {
    /// Overall description of the project; at most one per description.
    pub project: Option<ProjectBlock>,
    /// Tables, in declaration order.
    pub tables: Vec<TableBlock>,
    /// Table groups, in declaration order.
    pub table_groups: Vec<TableGroupBlock>,
    /// Relations declared at top level, in declaration order.
    pub refs: Vec<RefBlock>,
    /// Enums, in declaration order.
    pub enums: Vec<EnumBlock>,
}

/// Mathematical model of a [`SchemaBlock`].
pub struct SchemaBlockView {
    pub project: Option<ProjectBlockView>,
    pub tables: Seq<TableBlockView>,
    pub table_groups: Seq<TableGroupBlockView>,
    pub refs: Seq<RefBlockView>,
    pub enums: Seq<EnumBlockView>,
}

impl View for SchemaBlock {
    type V = SchemaBlockView;

    open spec fn view(&self) -> SchemaBlockView {
        SchemaBlockView {
            project: self.project.deep_view(),
            tables: self.tables.deep_view(),
            table_groups: self.table_groups.deep_view(),
            refs: self.refs.deep_view(),
            enums: self.enums.deep_view(),
        }
    }
}

impl DeepView for SchemaBlock {
    type V = SchemaBlockView;

    open spec fn deep_view(&self) -> SchemaBlockView {
        self@
    }
}

impl Clone for SchemaBlock {
    fn clone(&self) -> (r: Self)
        ensures
            r@ == self@,
    {
        let project = match &self.project {
            Some(p) => Some(p.clone()),
            None => None,
        };
        let tables = self.tables.clone();
        assert(tables.deep_view() =~= self.tables.deep_view());
        let table_groups = self.table_groups.clone();
        assert(table_groups.deep_view() =~= self.table_groups.deep_view());
        let refs = self.refs.clone();
        assert(refs.deep_view() =~= self.refs.deep_view());
        let enums = self.enums.clone();
        assert(enums.deep_view() =~= self.enums.deep_view());
        SchemaBlock { project, tables, table_groups, refs, enums }
    }
}

impl SchemaBlock {
    /// Prepares the description for analysis. The description is kept as it is.
    pub fn transform_sematic(self) -> (r: Self)
        ensures
            r == self,
    {
        self
    }
}

} // verus!
