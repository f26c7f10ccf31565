//! Relations in their normal form, with both sides given.

use crate::analyzer::err::AnalysisError;
use crate::analyzer::indexer::{Indexer, IndexerView};
use crate::analyzer::resolve::{column_type_of, find_column_type};
use crate::ast::refs::{RefBlock, RefBlockView, RefIdent, RefIdentView, Relation, RelationSettings};
use crate::ast::table::{TableBlock, TableBlockView, TableIdent, TableIdentView};
use crate::text::clone_opt_string;
use vstd::prelude::*;

verus! {

/// A relation with both of its sides.
#[derive(Debug, PartialEq, Eq, Default)]
pub struct IndexedRefBlock {
    pub rel: Relation,
    pub lhs: RefIdent,
    pub rhs: RefIdent,
    pub settings: Option<RelationSettings>,
}

/// Mathematical model of an [`IndexedRefBlock`].
pub struct IndexedRefBlockView {
    pub rel: Relation,
    pub lhs: RefIdentView,
    pub rhs: RefIdentView,
    pub settings: Option<RelationSettings>,
}

impl View for IndexedRefBlock {
    type V = IndexedRefBlockView;

    open spec fn view(&self) -> IndexedRefBlockView {
        IndexedRefBlockView {
            rel: self.rel,
            lhs: self.lhs@,
            rhs: self.rhs@,
            settings: self.settings,
        }
    }
}

impl DeepView for IndexedRefBlock {
    type V = IndexedRefBlockView;

    open spec fn deep_view(&self) -> IndexedRefBlockView {
        self@
    }
}

impl Clone for IndexedRefBlock {
    fn clone(&self) -> (r: Self)
        ensures
            r@ == self@,
    {
        IndexedRefBlock {
            rel: self.rel,
            lhs: self.lhs.clone(),
            rhs: self.rhs.clone(),
            settings: self.settings,
        }
    }
}

impl IndexedRefBlockView {
    /// The relation that a declaration on a column stands for: its left side
    /// is the column itself.
    pub open spec fn of_inline(
        block: RefBlockView,
        owner: TableIdentView,
        column: Seq<char>,
    ) -> IndexedRefBlockView {
        IndexedRefBlockView {
            rel: block.rel,
            lhs: RefIdentView { schema: owner.schema, table: owner.name, compositions: seq![column] },
            rhs: block.rhs,
            settings: block.settings,
        }
    }

    /// The relation that a declaration at top level stands for; it must give
    /// its left side.
    pub open spec fn of_block(block: RefBlockView) -> Result<IndexedRefBlockView, AnalysisError> {
        match block.lhs {
            Some(lhs) => Ok(
                IndexedRefBlockView { rel: block.rel, lhs, rhs: block.rhs, settings: block.settings },
            ),
            None => Err(AnalysisError::MalformedReference),
        }
    }

    /// Whether two relations have the same left side once aliases are
    /// replaced by what they stand for.
    pub open spec fn same_lhs(self, other: IndexedRefBlockView, index: IndexerView) -> bool {
        index.resolve(self.lhs) == index.resolve(other.lhs)
    }

    /// Whether both sides, with aliases replaced, name columns that exist,
    /// one on each side, of the same type; if not, the first of these rules
    /// that is broken.
    pub open spec fn type_check(self, tables: Seq<TableBlockView>, index: IndexerView) -> Result<
        (),
        AnalysisError,
    > {
        let lhs = index.resolve(self.lhs);
        let rhs = index.resolve(self.rhs);
        match index.lookup_table_fields(lhs.schema, lhs.table, lhs.compositions) {
            Err(e) => Err(e),
            Ok(()) => match index.lookup_table_fields(rhs.schema, rhs.table, rhs.compositions) {
                Err(e) => Err(e),
                Ok(()) => if lhs.compositions.len() != 1 || rhs.compositions.len() != 1 {
                    Err(AnalysisError::UnsupportedCompositeReference)
                } else {
                    match column_type_of(tables, lhs.schema, lhs.table, lhs.compositions[0]) {
                        Err(e) => Err(e),
                        Ok(left) => match column_type_of(
                            tables,
                            rhs.schema,
                            rhs.table,
                            rhs.compositions[0],
                        ) {
                            Err(e) => Err(e),
                            Ok(right) => if left == right {
                                Ok(())
                            } else {
                                Err(AnalysisError::MismatchedForeignKeyType)
                            },
                        },
                    }
                },
            },
        }
    }
}

impl IndexedRefBlock {
    /// The relations declared on a column, each with the column as its left
    /// side.
    pub fn from_inline(ref_blocks: Vec<RefBlock>, table_ident: TableIdent, col_name: String) -> (r:
        Vec<Self>)
        ensures
            r.deep_view() == Seq::new(
                ref_blocks.deep_view().len(),
                |i: int|
                    IndexedRefBlockView::of_inline(
                        ref_blocks.deep_view()[i],
                        table_ident@,
                        col_name@,
                    ),
            ),
    {
        let mut out: Vec<IndexedRefBlock> = Vec::new();
        let mut i: usize = 0;
        while i < ref_blocks.len()
            invariant
                i <= ref_blocks.len(),
                out.len() == i,
                forall|j: int|
                    0 <= j < i ==> (#[trigger] out[j])@ == IndexedRefBlockView::of_inline(
                        ref_blocks.deep_view()[j],
                        table_ident@,
                        col_name@,
                    ),
            decreases ref_blocks.len() - i,
        {
            let block = &ref_blocks[i];
            assert(ref_blocks.deep_view()[i as int] == block@);
            let mut compositions: Vec<String> = Vec::new();
            compositions.push(col_name.clone());
            assert(compositions.deep_view() =~= seq![col_name@]);
            let lhs = RefIdent {
                schema: clone_opt_string(&table_ident.schema),
                table: table_ident.name.clone(),
                compositions,
            };
            let item = IndexedRefBlock {
                rel: block.rel,
                lhs,
                rhs: block.rhs.clone(),
                settings: block.settings,
            };
            out.push(item.normalize());
            i += 1;
        }
        assert(out.deep_view() =~= Seq::new(
            ref_blocks.deep_view().len(),
            |i: int|
                IndexedRefBlockView::of_inline(ref_blocks.deep_view()[i], table_ident@, col_name@),
        ));
        out
    }

    /// The relation declared at top level; it must give its left side.
    pub fn from(ref_block: RefBlock) -> (r: Result<Self, AnalysisError>)
        ensures
            match r {
                Ok(b) => IndexedRefBlockView::of_block(ref_block@) == Ok::<
                    IndexedRefBlockView,
                    AnalysisError,
                >(b@),
                Err(e) => IndexedRefBlockView::of_block(ref_block@) == Err::<
                    IndexedRefBlockView,
                    AnalysisError,
                >(e),
            },
    {
        let RefBlock { rel, lhs, rhs, settings } = ref_block;
        match lhs {
            Some(lhs) => Ok(IndexedRefBlock { rel, lhs, rhs, settings }.normalize()),
            None => Err(AnalysisError::MalformedReference),
        }
    }

    /// Checks that both sides, with aliases replaced, name columns that
    /// exist, one on each side, of the same type.
    pub fn validate_ref_type(&self, tables: &Vec<TableBlock>, indexer: &Indexer) -> (r: Result<
        (),
        AnalysisError,
    >)
        ensures
            r == self@.type_check(tables.deep_view(), indexer@),
    {
        let lhs = indexer.refer_ref_alias(&self.lhs);
        let rhs = indexer.refer_ref_alias(&self.rhs);
        match indexer.lookup_table_fields(&lhs.schema, &lhs.table, &lhs.compositions) {
            Err(e) => {
                return Err(e);
            },
            Ok(()) => {},
        }
        match indexer.lookup_table_fields(&rhs.schema, &rhs.table, &rhs.compositions) {
            Err(e) => {
                return Err(e);
            },
            Ok(()) => {},
        }
        if lhs.compositions.len() != 1 || rhs.compositions.len() != 1 {
            return Err(AnalysisError::UnsupportedCompositeReference);
        }
        assert(lhs@.compositions[0] == lhs.compositions[0]@);
        assert(rhs@.compositions[0] == rhs.compositions[0]@);
        let left = match find_column_type(tables, &lhs.schema, &lhs.table, &lhs.compositions[0]) {
            Err(e) => {
                return Err(e);
            },
            Ok(t) => t,
        };
        let right = match find_column_type(tables, &rhs.schema, &rhs.table, &rhs.compositions[0]) {
            Err(e) => {
                return Err(e);
            },
            Ok(t) => t,
        };
        if left.same_as(right) {
            Ok(())
        } else {
            Err(AnalysisError::MismatchedForeignKeyType)
        }
    }

    /// Whether two relations have the same left side once aliases are
    /// replaced by what they stand for.
    pub fn is_same_lhs_as(&self, other: &Self, indexer: &Indexer) -> (r: bool)
        ensures
            r == self@.same_lhs(other@, indexer@),
    {
        let own = indexer.refer_ref_alias(&self.lhs);
        let their = indexer.refer_ref_alias(&other.lhs);
        own.same_as(&their)
    }

    /// Brings the relation into its normal form. Every relation is in normal
    /// form as it stands.
    pub fn normalize(self) -> (r: Self)
        ensures
            r == self,
    {
        self
    }
}

} // verus!
