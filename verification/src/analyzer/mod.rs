//! Semantic analysis: from a parsed schema description to a validated model.

use crate::analyzer::block::{IndexedRefBlock, IndexedRefBlockView};
use crate::analyzer::err::AnalysisError;
use crate::analyzer::indexer::{Indexer, IndexerView};
use crate::analyzer::order::{first_failure, lemma_first_failure_hit, lemma_first_failure_step};
use crate::analyzer::resolve::{resolve_tables, resolve_tables_spec};
use crate::ast::enums::{EnumBlock, EnumBlockView};
use crate::ast::project::{ProjectBlock, ProjectBlockView};
use crate::ast::refs::{RefBlock, RefBlockView, RefIdentView};
use crate::ast::schema::{SchemaBlock, SchemaBlockView};
use crate::ast::table::{TableBlock, TableBlockView, TableIdent, TableIdentView};
use crate::ast::table_group::{TableGroupBlock, TableGroupBlockView};
use crate::schema_or_default;
use crate::text::schema_name;
use vstd::prelude::*;

pub mod block;
pub mod err;
pub mod indexer;
pub mod laws;
pub mod order;
pub mod resolve;

verus! {

/// A validated schema description: column types are resolved, relations are
/// in normal form, and the symbol tables are kept for later lookups.
#[derive(Debug, PartialEq, Eq)]
pub struct SematicSchemaBlock {
    /// Overall description of the project.
    pub project: Option<ProjectBlock>,
    /// Tables, with resolved column types.
    pub tables: Vec<TableBlock>,
    /// Table groups.
    pub table_groups: Vec<TableGroupBlock>,
    /// Relations: those declared at top level, then those declared on
    /// columns, table by table and column by column.
    pub refs: Vec<IndexedRefBlock>,
    /// Enums.
    pub enums: Vec<EnumBlock>,
    /// Symbol tables and aliases.
    pub indexer: Indexer,
}

/// Mathematical model of a [`SematicSchemaBlock`].
pub struct SematicSchemaBlockView {
    pub project: Option<ProjectBlockView>,
    pub tables: Seq<TableBlockView>,
    pub table_groups: Seq<TableGroupBlockView>,
    pub refs: Seq<IndexedRefBlockView>,
    pub enums: Seq<EnumBlockView>,
    pub indexer: IndexerView,
}

impl View for SematicSchemaBlock {
    type V = SematicSchemaBlockView;

    open spec fn view(&self) -> SematicSchemaBlockView {
        SematicSchemaBlockView {
            project: self.project.deep_view(),
            tables: self.tables.deep_view(),
            table_groups: self.table_groups.deep_view(),
            refs: self.refs.deep_view(),
            enums: self.enums.deep_view(),
            indexer: self.indexer@,
        }
    }
}

impl Clone for SematicSchemaBlock {
    fn clone(&self) -> (r: Self)
        ensures
            r@ == self@,
    {
        let project = match &self.project {
            Some(p) => Some(p.clone()),
            None => None,
        };
        let tables = self.tables.clone();
        assert(tables.deep_view() =~= self.tables.deep_view());
        let table_groups = self.table_groups.clone();
        assert(table_groups.deep_view() =~= self.table_groups.deep_view());
        let refs = self.refs.clone();
        assert(refs.deep_view() =~= self.refs.deep_view());
        let enums = self.enums.clone();
        assert(enums.deep_view() =~= self.enums.deep_view());
        SematicSchemaBlock {
            project,
            tables,
            table_groups,
            refs,
            enums,
            indexer: self.indexer.clone(),
        }
    }
}

/// How a relation touches a table.
#[derive(Debug, PartialEq, Eq, Clone, Copy, Structural)]
pub enum RefDirection {
    /// The table holds the foreign key, which points at another table.
    To,
    /// Another table holds a foreign key that points at the table.
    By,
    /// The table holds a foreign key that points at the table itself.
    Itself,
}

/// Whether a side of a relation names the table.
pub open spec fn names_table(ident: TableIdentView, side: RefIdentView) -> bool {
    schema_or_default(ident.schema) == schema_or_default(side.schema) && ident.name == side.table
}

/// How a relation touches a table, aliases on both sides replaced by what
/// they stand for; `None` if it does not touch it.
pub open spec fn direction(
    block: IndexedRefBlockView,
    ident: TableIdentView,
    index: IndexerView,
) -> Option<RefDirection> {
    let left = names_table(ident, index.resolve(block.lhs));
    let right = names_table(ident, index.resolve(block.rhs));
    if left && right {
        Some(RefDirection::Itself)
    } else if left {
        Some(RefDirection::To)
    } else if right {
        Some(RefDirection::By)
    } else {
        None
    }
}

/// The relations that touch a table in a given way, in their order.
pub open spec fn refs_in_direction(
    refs: Seq<IndexedRefBlockView>,
    ident: TableIdentView,
    index: IndexerView,
    wanted: RefDirection,
) -> Seq<IndexedRefBlockView>
    decreases refs.len(),
{
    if refs.len() == 0 {
        Seq::empty()
    } else {
        let front = refs_in_direction(refs.drop_last(), ident, index, wanted);
        if direction(refs.last(), ident, index) == Some(wanted) {
            front.push(refs.last())
        } else {
            front
        }
    }
}

/// The relations declared at top level, in normal form; each must give its
/// left side.
pub open spec fn explicit_refs(blocks: Seq<RefBlockView>) -> Result<
    Seq<IndexedRefBlockView>,
    AnalysisError,
> {
    if exists|i: int| 0 <= i < blocks.len() && (#[trigger] blocks[i]).lhs is None {
        Err(AnalysisError::MalformedReference)
    } else {
        Ok(Seq::new(blocks.len(), |i: int| IndexedRefBlockView::of_block(blocks[i]).unwrap()))
    }
}

/// The relations declared on one column, in normal form.
pub open spec fn column_refs(table: TableBlockView, column: int) -> Seq<IndexedRefBlockView> {
    Seq::new(
        table.cols[column].settings.refs.len(),
        |k: int|
            IndexedRefBlockView::of_inline(
                table.cols[column].settings.refs[k],
                table.ident,
                table.cols[column].name,
            ),
    )
}

/// The relations declared on the first `n` columns of a table.
pub open spec fn table_refs(table: TableBlockView, n: nat) -> Seq<IndexedRefBlockView>
    decreases n,
{
    if n == 0 {
        Seq::empty()
    } else {
        table_refs(table, (n - 1) as nat) + column_refs(table, n - 1)
    }
}

/// The relations declared on the columns of the first `n` tables.
pub open spec fn inline_refs(tables: Seq<TableBlockView>, n: nat) -> Seq<IndexedRefBlockView>
    decreases n,
{
    if n == 0 {
        Seq::empty()
    } else {
        inline_refs(tables, (n - 1) as nat) + table_refs(
            tables[n - 1],
            tables[n - 1].cols.len(),
        )
    }
}

/// How many of the relations have the same left side as a given one, once
/// aliases are replaced by what they stand for.
pub open spec fn count_same_lhs(
    refs: Seq<IndexedRefBlockView>,
    block: IndexedRefBlockView,
    index: IndexerView,
) -> nat
    decreases refs.len(),
{
    if refs.len() == 0 {
        0
    } else {
        count_same_lhs(refs.drop_last(), block, index) + if block.same_lhs(refs.last(), index) {
            1nat
        } else {
            0nat
        }
    }
}

/// Whether the relation at `i` keeps every rule; if not, the first rule it
/// breaks: it names one owning side; its two sides are columns that exist,
/// one each, of the same type; no other relation has its left side.
pub open spec fn ref_result(
    refs: Seq<IndexedRefBlockView>,
    i: int,
    tables: Seq<TableBlockView>,
    index: IndexerView,
) -> Result<(), AnalysisError> {
    if !refs[i].rel.has_owning_side() {
        Err(AnalysisError::UnsupportedRelationKind)
    } else {
        match refs[i].type_check(tables, index) {
            Err(e) => Err(e),
            Ok(()) => if count_same_lhs(refs, refs[i], index) != 1 {
                Err(AnalysisError::DuplicateRelation)
            } else {
                Ok(())
            },
        }
    }
}

/// The results of checking each relation.
pub open spec fn ref_results(
    refs: Seq<IndexedRefBlockView>,
    tables: Seq<TableBlockView>,
    index: IndexerView,
) -> Seq<Result<(), AnalysisError>> {
    Seq::new(refs.len(), |i: int| ref_result(refs, i, tables, index))
}

/// Whether every relation keeps every rule; if not, the first rule that the
/// first offending relation breaks.
pub open spec fn validate_refs_spec(
    refs: Seq<IndexedRefBlockView>,
    tables: Seq<TableBlockView>,
    index: IndexerView,
) -> Result<(), AnalysisError> {
    first_failure(ref_results(refs, tables, index))
}

/// The validated model of a schema description, or the first rule that the
/// description breaks. The rules are taken in this order: the project
/// declaration, the relations at top level, the tables, the enums, the table
/// groups, the column types table by table, the relations one by one.
pub open spec fn analyze_spec(input: SchemaBlockView) -> Result<
    SematicSchemaBlockView,
    AnalysisError,
> {
    if input.project is None {
        Err(AnalysisError::ProjectBlockMissing)
    } else {
        match explicit_refs(input.refs) {
            Err(e) => Err(e),
            Ok(explicit) => {
                let with_tables = IndexerView::empty().index_tables_from(input.tables);
                match with_tables.1 {
                    Err(e) => Err(e),
                    Ok(()) => {
                        let with_enums = with_tables.0.index_enums_from(input.enums);
                        match with_enums.1 {
                            Err(e) => Err(e),
                            Ok(()) => {
                                let index = with_enums.0;
                                match index.check_table_groups(input.table_groups) {
                                    Err(e) => Err(e),
                                    Ok(()) => {
                                        let refs = explicit + inline_refs(
                                            input.tables,
                                            input.tables.len(),
                                        );
                                        match resolve_tables_spec(input.tables, index) {
                                            Err(e) => Err(e),
                                            Ok(tables) => match validate_refs_spec(
                                                refs,
                                                tables,
                                                index,
                                            ) {
                                                Err(e) => Err(e),
                                                Ok(()) => Ok(
                                                    SematicSchemaBlockView {
                                                        project: input.project,
                                                        tables,
                                                        table_groups: input.table_groups,
                                                        refs,
                                                        enums: input.enums,
                                                        indexer: index,
                                                    },
                                                ),
                                            },
                                        }
                                    },
                                }
                            },
                        }
                    },
                }
            },
        }
    }
}

/// The relations declared at top level, in normal form.
pub fn collect_explicit_refs(blocks: &Vec<RefBlock>) -> (r: Result<
    Vec<IndexedRefBlock>,
    AnalysisError,
>)
    ensures
        match r {
            Ok(refs) => explicit_refs(blocks.deep_view()) == Ok::<
                Seq<IndexedRefBlockView>,
                AnalysisError,
            >(refs.deep_view()),
            Err(e) => explicit_refs(blocks.deep_view()) == Err::<
                Seq<IndexedRefBlockView>,
                AnalysisError,
            >(e),
        },
{
    let mut out: Vec<IndexedRefBlock> = Vec::new();
    let mut i: usize = 0;
    while i < blocks.len()
        invariant
            i <= blocks.len(),
            out.len() == i,
            forall|j: int| 0 <= j < i ==> (#[trigger] blocks.deep_view()[j]).lhs is Some,
            forall|j: int|
                0 <= j < i ==> (#[trigger] out[j])@ == IndexedRefBlockView::of_block(
                    blocks.deep_view()[j],
                ).unwrap(),
        decreases blocks.len() - i,
    {
        assert(blocks.deep_view()[i as int] == blocks[i as int]@);
        match IndexedRefBlock::from(blocks[i].clone()) {
            Err(e) => {
                return Err(e);
            },
            Ok(item) => {
                out.push(item);
            },
        }
        i += 1;
    }
    assert(out.deep_view() =~= Seq::new(
        blocks.deep_view().len(),
        |i: int| IndexedRefBlockView::of_block(blocks.deep_view()[i]).unwrap(),
    ));
    Ok(out)
}

/// Appends the relations declared on the columns of the tables, table by
/// table and column by column, each in normal form.
pub fn collect_inline_refs(tables: &Vec<TableBlock>, out: &mut Vec<IndexedRefBlock>)
    ensures
        final(out).deep_view() == old(out).deep_view() + inline_refs(
            tables.deep_view(),
            tables.len() as nat,
        ),
{
    let ghost base = out.deep_view();
    let ghost all = tables.deep_view();
    assert(out.deep_view() =~= base + inline_refs(all, 0));
    let mut i: usize = 0;
    while i < tables.len()
        invariant
            i <= tables.len(),
            all == tables.deep_view(),
            out.deep_view() == base + inline_refs(all, i as nat),
        decreases tables.len() - i,
    {
        let table = &tables[i];
        assert(all[i as int] == table@);
        assert(out.deep_view() =~= base + inline_refs(all, i as nat) + table_refs(table@, 0));
        let mut j: usize = 0;
        while j < table.cols.len()
            invariant
                j <= table.cols.len(),
                i < tables.len(),
                all == tables.deep_view(),
                all[i as int] == table@,
                out.deep_view() == base + inline_refs(all, i as nat) + table_refs(
                    table@,
                    j as nat,
                ),
            decreases table.cols.len() - j,
        {
            let column = &table.cols[j];
            assert(table@.cols[j as int] == column@);
            let declared = column.settings.refs.clone();
            assert(declared.deep_view() =~= column.settings.refs.deep_view());
            let mut found = IndexedRefBlock::from_inline(
                declared,
                table.ident.clone(),
                column.name.clone(),
            );
            assert(found.deep_view() =~= column_refs(table@, j as int));
            let ghost before = out@;
            let ghost added = found@;
            out.append(&mut found);
            proof {
                assert(out@ == before + added);
                assert(out.deep_view() =~= base + inline_refs(all, i as nat) + table_refs(
                    table@,
                    j as nat,
                ) + column_refs(table@, j as int));
                assert(out.deep_view() =~= base + inline_refs(all, i as nat) + table_refs(
                    table@,
                    (j + 1) as nat,
                ));
            }
            j += 1;
        }
        assert(out.deep_view() =~= base + inline_refs(all, (i + 1) as nat));
        i += 1;
    }
}

/// How many of the relations have the same left side as a given one.
pub fn count_same_lhs_refs(
    refs: &Vec<IndexedRefBlock>,
    block: &IndexedRefBlock,
    indexer: &Indexer,
) -> (r: usize)
    ensures
        r == count_same_lhs(refs.deep_view(), block@, indexer@),
{
    let ghost all = refs.deep_view();
    let mut count: usize = 0;
    let mut i: usize = 0;
    while i < refs.len()
        invariant
            i <= refs.len(),
            count <= i,
            all == refs.deep_view(),
            count == count_same_lhs(all.take(i as int), block@, indexer@),
        decreases refs.len() - i,
    {
        proof {
            assert(all.take(i + 1).drop_last() =~= all.take(i as int));
            assert(all.take(i + 1).last() == refs[i as int]@);
        }
        if block.is_same_lhs_as(&refs[i], indexer) {
            count += 1;
        }
        i += 1;
    }
    assert(all.take(refs.len() as int) =~= all);
    count
}

/// Checks one of the relations against every rule.
pub fn validate_ref(
    refs: &Vec<IndexedRefBlock>,
    i: usize,
    tables: &Vec<TableBlock>,
    indexer: &Indexer,
) -> (r: Result<(), AnalysisError>)
    requires
        i < refs.len(),
    ensures
        r == ref_result(refs.deep_view(), i as int, tables.deep_view(), indexer@),
{
    let block = &refs[i];
    assert(refs.deep_view()[i as int] == block@);
    match block.rel {
        crate::ast::refs::Relation::One2One | crate::ast::refs::Relation::Many2One => {},
        _ => {
            return Err(AnalysisError::UnsupportedRelationKind);
        },
    }
    match block.validate_ref_type(tables, indexer) {
        Err(e) => {
            return Err(e);
        },
        Ok(()) => {},
    }
    if count_same_lhs_refs(refs, block, indexer) != 1 {
        return Err(AnalysisError::DuplicateRelation);
    }
    Ok(())
}

/// Checks every relation against every rule, in order.
pub fn validate_refs(refs: &Vec<IndexedRefBlock>, tables: &Vec<TableBlock>, indexer: &Indexer) -> (r:
    Result<(), AnalysisError>)
    ensures
        r == validate_refs_spec(refs.deep_view(), tables.deep_view(), indexer@),
{
    let ghost results = ref_results(refs.deep_view(), tables.deep_view(), indexer@);
    assert(results.skip(0) =~= results);
    let mut i: usize = 0;
    while i < refs.len()
        invariant
            i <= refs.len(),
            results == ref_results(refs.deep_view(), tables.deep_view(), indexer@),
            first_failure(results) == first_failure(results.skip(i as int)),
        decreases refs.len() - i,
    {
        match validate_ref(refs, i, tables, indexer) {
            Err(e) => {
                proof {
                    lemma_first_failure_hit(results, i as int);
                }
                return Err(e);
            },
            Ok(()) => {
                proof {
                    lemma_first_failure_step(results, i as int);
                }
            },
        }
        i += 1;
    }
    Ok(())
}

impl SchemaBlock {
    /// Analyzes the description: builds the symbol tables, brings the
    /// relations into normal form, resolves the column types and checks
    /// every rule. Returns the validated model, or the first rule that the
    /// description breaks.
    pub fn analyze(self) -> (r: Result<SematicSchemaBlock, AnalysisError>)
        ensures
            match r {
                Ok(model) => analyze_spec(self@) == Ok::<SematicSchemaBlockView, AnalysisError>(
                    model@,
                ),
                Err(e) => analyze_spec(self@) == Err::<SematicSchemaBlockView, AnalysisError>(e),
            },
            r matches Ok(model) ==> model@.well_formed(),
    {
        let SchemaBlock { project, tables, table_groups, refs, enums } = self;
        if project.is_none() {
            return Err(AnalysisError::ProjectBlockMissing);
        }
        let mut indexed_refs = match collect_explicit_refs(&refs) {
            Err(e) => {
                return Err(e);
            },
            Ok(found) => found,
        };
        let mut indexer = Indexer::new();
        match indexer.index_tables(&tables) {
            Err(e) => {
                return Err(e);
            },
            Ok(()) => {},
        }
        match indexer.index_enums(&enums) {
            Err(e) => {
                return Err(e);
            },
            Ok(()) => {},
        }
        match indexer.index_table_groups(&table_groups) {
            Err(e) => {
                return Err(e);
            },
            Ok(()) => {},
        }
        collect_inline_refs(&tables, &mut indexed_refs);
        let tables = match resolve_tables(&tables, &indexer) {
            Err(e) => {
                return Err(e);
            },
            Ok(resolved) => resolved,
        };
        match validate_refs(&indexed_refs, &tables, &indexer) {
            Err(e) => {
                return Err(e);
            },
            Ok(()) => {},
        }
        proof {
            crate::analyzer::laws::lemma_analysis_yields_valid_model(self@);
        }
        Ok(SematicSchemaBlock { project, tables, table_groups, refs: indexed_refs, enums, indexer })
    }
}

impl SematicSchemaBlock {
    /// Whether a side of a relation, as written, names the table.
    fn side_names_table(table_ident: &TableIdent, schema: &Option<String>, table: &String) -> (r:
        bool)
        ensures
            r == (schema_or_default(table_ident@.schema) == schema_or_default(schema.deep_view())
                && table_ident@.name == table@),
    {
        let own = schema_name(&table_ident.schema);
        let their = schema_name(schema);
        own == their && table_ident.name == *table
    }

    /// The relations that touch a table: those in which it holds the foreign
    /// key, those in which another table's foreign key points at it, and
    /// those from the table to itself. A relation that does not touch the
    /// table is in none of the three; one that does is in exactly one.
    pub fn get_table_refs(&self, table_ident: &TableIdent) -> (r: (
        Vec<IndexedRefBlock>,
        Vec<IndexedRefBlock>,
        Vec<IndexedRefBlock>,
    ))
        ensures
            r.0.deep_view() == refs_in_direction(
                self@.refs,
                table_ident@,
                self@.indexer,
                RefDirection::To,
            ),
            r.1.deep_view() == refs_in_direction(
                self@.refs,
                table_ident@,
                self@.indexer,
                RefDirection::By,
            ),
            r.2.deep_view() == refs_in_direction(
                self@.refs,
                table_ident@,
                self@.indexer,
                RefDirection::Itself,
            ),
    {
        let ghost all = self@.refs;
        let ghost ident = table_ident@;
        let ghost index = self@.indexer;
        let mut ref_to_blocks: Vec<IndexedRefBlock> = Vec::new();
        let mut ref_by_blocks: Vec<IndexedRefBlock> = Vec::new();
        let mut ref_self_blocks: Vec<IndexedRefBlock> = Vec::new();
        assert(ref_to_blocks.deep_view() =~= Seq::empty());
        assert(ref_by_blocks.deep_view() =~= Seq::empty());
        assert(ref_self_blocks.deep_view() =~= Seq::empty());
        let mut i: usize = 0;
        while i < self.refs.len()
            invariant
                i <= self.refs.len(),
                all == self@.refs,
                ident == table_ident@,
                index == self@.indexer,
                ref_to_blocks.deep_view() == refs_in_direction(
                    all.take(i as int),
                    ident,
                    index,
                    RefDirection::To,
                ),
                ref_by_blocks.deep_view() == refs_in_direction(
                    all.take(i as int),
                    ident,
                    index,
                    RefDirection::By,
                ),
                ref_self_blocks.deep_view() == refs_in_direction(
                    all.take(i as int),
                    ident,
                    index,
                    RefDirection::Itself,
                ),
            decreases self.refs.len() - i,
        {
            let ref_block = &self.refs[i];
            proof {
                assert(all.take(i + 1).drop_last() =~= all.take(i as int));
                assert(all.take(i + 1).last() == ref_block@);
            }
            let lhs_ident = self.indexer.refer_ref_alias(&ref_block.lhs);
            let rhs_ident = self.indexer.refer_ref_alias(&ref_block.rhs);
            let left = Self::side_names_table(table_ident, &lhs_ident.schema, &lhs_ident.table);
            let right = Self::side_names_table(table_ident, &rhs_ident.schema, &rhs_ident.table);
            if left && right {
                let ghost before = ref_self_blocks.deep_view();
                ref_self_blocks.push(ref_block.clone());
                assert(ref_self_blocks.deep_view() =~= before.push(ref_block@));
            } else if left {
                let ghost before = ref_to_blocks.deep_view();
                ref_to_blocks.push(ref_block.clone());
                assert(ref_to_blocks.deep_view() =~= before.push(ref_block@));
            } else if right {
                let ghost before = ref_by_blocks.deep_view();
                ref_by_blocks.push(ref_block.clone());
                assert(ref_by_blocks.deep_view() =~= before.push(ref_block@));
            }
            i += 1;
        }
        assert(all.take(self.refs.len() as int) =~= all);
        (ref_to_blocks, ref_by_blocks, ref_self_blocks)
    }
}

} // verus!
