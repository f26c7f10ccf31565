//! Generation never fails on a validated model.

use crate::analyzer::block::IndexedRefBlockView;
use crate::analyzer::laws::{lemma_refs_in_direction, lemma_type_checked, type_resolved};
use crate::analyzer::{refs_in_direction, RefDirection, SematicSchemaBlockView};
use crate::ast::table::TableBlockView;
use crate::compiler::config::ConfigView;
use crate::compiler::entity::{with_field, with_fields};
use crate::compiler::relation::{add_relation, add_relations, RelationsView};
use crate::compiler::{compile_spec, file_head, table_module, table_relations, with_entity_modules};
use crate::generator::BlockView;
use vstd::prelude::*;

verus! {

/// Every relation names one owning side and has a column on each side.
pub open spec fn refs_renderable(blocks: Seq<IndexedRefBlockView>) -> bool {
    forall|i: int|
        0 <= i < blocks.len() ==> (#[trigger] blocks[i]).rel.has_owning_side()
            && blocks[i].lhs.compositions.len() > 0 && blocks[i].rhs.compositions.len() > 0
}

/// The fields of a table whose column types are resolved can be written.
pub proof fn lemma_fields_of_resolved_table(model: BlockView, table: TableBlockView, from: int)
    requires
        type_resolved(table),
        0 <= from <= table.cols.len(),
    ensures
        with_fields(model, table, from) is Ok,
    decreases table.cols.len() - from,
{
    if from < table.cols.len() {
        let t = table.cols[from].col_type;
        assert(t.is_scalar() || t is Enum);
        assert(with_field(model, table, table.cols[from]) is Ok);
        lemma_fields_of_resolved_table(
            with_field(model, table, table.cols[from]).unwrap(),
            table,
            from + 1,
        );
    }
}

/// Relations that name one owning side and have a column on each side can
/// be written, whichever way they touch the table.
pub proof fn lemma_renderable_relations(
    state: RelationsView,
    blocks: Seq<IndexedRefBlockView>,
    way: RefDirection,
    from: int,
)
    requires
        refs_renderable(blocks),
        0 <= from <= blocks.len(),
    ensures
        add_relations(state, blocks, way, from) is Ok,
    decreases blocks.len() - from,
{
    if from < blocks.len() {
        assert(blocks[from].rel.has_owning_side());
        assert(add_relation(state, blocks[from], way) is Ok);
        lemma_renderable_relations(
            add_relation(state, blocks[from], way).unwrap(),
            blocks,
            way,
            from + 1,
        );
    }
}

/// In a validated model, the relations that touch a table in a given way
/// name one owning side and have a column on each side.
pub proof fn lemma_relations_of_valid_model(
    model: SematicSchemaBlockView,
    table: TableBlockView,
    way: RefDirection,
)
    requires
        model.well_formed(),
    ensures
        refs_renderable(refs_in_direction(model.refs, table.ident, model.indexer, way)),
{
    let chosen = refs_in_direction(model.refs, table.ident, model.indexer, way);
    lemma_refs_in_direction(model.refs, table.ident, model.indexer, way);
    assert forall|i: int| 0 <= i < chosen.len() implies (#[trigger] chosen[i]).rel.has_owning_side()
        && chosen[i].lhs.compositions.len() > 0 && chosen[i].rhs.compositions.len() > 0 by {
        assert(model.refs.contains(chosen[i]));
        let k = choose|k: int| 0 <= k < model.refs.len() && model.refs[k] == chosen[i];
        assert(model.refs[k].rel.has_owning_side());
        lemma_type_checked(model.refs[k], model.tables, model.indexer);
    }
}

/// The modules of the tables of a validated model can be written.
pub proof fn lemma_entity_modules_of_valid_model(
    file: BlockView,
    model: SematicSchemaBlockView,
    from: int,
)
    requires
        model.well_formed(),
        0 <= from <= model.tables.len(),
    ensures
        with_entity_modules(file, model, from) is Ok,
    decreases model.tables.len() - from,
{
    if from < model.tables.len() {
        let table = model.tables[from];
        assert(type_resolved(table));
        lemma_fields_of_resolved_table(BlockView::fresh(2, Some("pub struct Model"@)), table, 0);
        lemma_relations_of_valid_model(model, table, RefDirection::Itself);
        lemma_relations_of_valid_model(model, table, RefDirection::To);
        lemma_relations_of_valid_model(model, table, RefDirection::By);
        let start = RelationsView {
            variants: BlockView::fresh(2, Some("pub enum Relation"@)),
            links: Seq::empty(),
        };
        let itself = refs_in_direction(model.refs, table.ident, model.indexer, RefDirection::Itself);
        let to = refs_in_direction(model.refs, table.ident, model.indexer, RefDirection::To);
        let by = refs_in_direction(model.refs, table.ident, model.indexer, RefDirection::By);
        lemma_renderable_relations(start, itself, RefDirection::Itself, 0);
        let first = add_relations(start, itself, RefDirection::Itself, 0).unwrap();
        lemma_renderable_relations(first, to, RefDirection::To, 0);
        let second = add_relations(first, to, RefDirection::To, 0).unwrap();
        lemma_renderable_relations(second, by, RefDirection::By, 0);
        assert(table_relations(model, table) is Ok);
        assert(table_module(model, table) is Ok);
        lemma_entity_modules_of_valid_model(
            file.with_skip(1).with_block(table_module(model, table).unwrap()),
            model,
            from + 1,
        );
    }
}

/// Generation succeeds on every validated model, whatever the options.
pub proof fn lemma_valid_model_compiles(model: SematicSchemaBlockView, config: ConfigView)
    requires
        model.well_formed(),
    ensures
        compile_spec(model, config) is Ok,
{
    lemma_entity_modules_of_valid_model(file_head(model), model, 0);
}

} // verus!
