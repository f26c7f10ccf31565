//! What holds of every analysis: the rules that a validated model keeps, and
//! the inputs on which indexing succeeds.

use crate::analyzer::block::IndexedRefBlockView;
use crate::analyzer::err::AnalysisError;
use crate::analyzer::indexer::IndexerView;
use crate::analyzer::order::{lemma_first_failure_at, lemma_first_failure_ok};
use crate::analyzer::resolve::{
    column_entries, column_results, column_type_of, primary_key_check, primary_key_result,
    resolve_table_spec, resolve_tables_spec, resolved_column, table_entries, table_key,
    table_results,
};
use crate::analyzer::{
    analyze_spec, column_refs, count_same_lhs, direction, explicit_refs, inline_refs, ref_result,
    ref_results, refs_in_direction, table_refs, validate_refs_spec, RefDirection,
    SematicSchemaBlockView,
};
use crate::ast::enums::EnumBlockView;
use crate::ast::refs::Relation;
use crate::ast::schema::SchemaBlockView;
use crate::ast::table::{TableBlockView, TableIdentView};
use crate::assoc::{key_index, lemma_key_index_none, lemma_key_index_some};
use crate::schema_or_default;
use vstd::prelude::*;

verus! {

/// The schema and name under which an enum is known.
pub open spec fn enum_key(block: EnumBlockView) -> (Seq<char>, Seq<char>) {
    (schema_or_default(block.id.schema), block.id.name)
}

/// No two columns of any table share a name.
pub open spec fn columns_unique(tables: Seq<TableBlockView>) -> bool {
    forall|i: int| 0 <= i < tables.len() ==> (#[trigger] tables[i]).column_names().no_duplicates()
}

/// No two tables share a schema and a name.
pub open spec fn table_names_unique(tables: Seq<TableBlockView>) -> bool {
    forall|i: int, j: int|
        0 <= i < j < tables.len() ==> table_key(#[trigger] tables[i]) != table_key(
            #[trigger] tables[j],
        )
}

/// No two tables share an alias.
pub open spec fn aliases_unique(tables: Seq<TableBlockView>) -> bool {
    forall|i: int, j: int|
        0 <= i < j < tables.len() && (#[trigger] tables[i]).ident.alias is Some ==> tables[i].ident.alias
            != (#[trigger] tables[j]).ident.alias
}

/// No two values of any enum are equal.
pub open spec fn values_unique(enums: Seq<EnumBlockView>) -> bool {
    forall|i: int| 0 <= i < enums.len() ==> (#[trigger] enums[i]).value_names().no_duplicates()
}

/// No two enums share a schema and a name.
pub open spec fn enum_names_unique(enums: Seq<EnumBlockView>) -> bool {
    forall|i: int, j: int|
        0 <= i < j < enums.len() ==> enum_key(#[trigger] enums[i]) != enum_key(
            #[trigger] enums[j],
        )
}

/// None of the tables, nor any of their aliases, is in the index yet.
pub open spec fn tables_new_to(index: IndexerView, tables: Seq<TableBlockView>) -> bool {
    &&& forall|i: int|
        0 <= i < tables.len() ==> !index.has_table(
            table_key(#[trigger] tables[i]).0,
            table_key(tables[i]).1,
        )
    &&& forall|i: int|
        0 <= i < tables.len() && (#[trigger] tables[i]).ident.alias is Some
            ==> !index.aliases.contains_key(tables[i].ident.alias.unwrap())
}

/// None of the enums is in the index yet.
pub open spec fn enums_new_to(index: IndexerView, enums: Seq<EnumBlockView>) -> bool {
    forall|i: int|
        0 <= i < enums.len() ==> !index.has_enum(
            enum_key(#[trigger] enums[i]).0,
            enum_key(enums[i]).1,
        )
}

/// Indexing a table adds its name and its alias to the index and nothing
/// else.
pub proof fn lemma_index_table_step(index: IndexerView, table: TableBlockView)
    requires
        index.index_table_step(table) is Ok,
    ensures
        forall|s: Seq<char>, n: Seq<char>| #[trigger]
            index.index_table_step(table).unwrap().has_table(s, n) <==> index.has_table(s, n) || (
            s,
            n,
        ) == table_key(table),
        forall|s: Seq<char>, n: Seq<char>| #[trigger]
            index.index_table_step(table).unwrap().has_enum(s, n) <==> index.has_enum(s, n),
        forall|a: Seq<char>| #[trigger]
            index.index_table_step(table).unwrap().aliases.contains_key(a)
                <==> index.aliases.contains_key(a) || table.ident.alias == Some(a),
{
}

/// Indexing an enum adds its name to the index and nothing else.
pub proof fn lemma_index_enum_step(index: IndexerView, block: EnumBlockView)
    requires
        index.index_enum_step(block) is Ok,
    ensures
        forall|s: Seq<char>, n: Seq<char>| #[trigger]
            index.index_enum_step(block).unwrap().has_enum(s, n) <==> index.has_enum(s, n) || (
            s,
            n,
        ) == enum_key(block),
        forall|s: Seq<char>, n: Seq<char>| #[trigger]
            index.index_enum_step(block).unwrap().has_table(s, n) <==> index.has_table(s, n),
        index.index_enum_step(block).unwrap().aliases == index.aliases,
{
}

/// Tables can be indexed exactly when no two columns of a table share a
/// name, no two tables share a schema and a name or an alias, and none of the
/// names and aliases is in the index already.
pub proof fn lemma_index_tables_ok(index: IndexerView, tables: Seq<TableBlockView>)
    ensures
        index.index_tables_from(tables).1 is Ok <==> columns_unique(tables) && table_names_unique(
            tables,
        ) && aliases_unique(tables) && tables_new_to(index, tables),
    decreases tables.len(),
{
    if tables.len() > 0 {
        let rest = tables.drop_first();
        assert(forall|i: int| 0 <= i < rest.len() ==> rest[i] == tables[i + 1]);
        match index.index_table_step(tables[0]) {
            Err(_) => {
                if columns_unique(tables) && table_names_unique(tables) && aliases_unique(tables)
                    && tables_new_to(index, tables) {
                    assert(tables[0].column_names().no_duplicates());
                    assert(false);
                }
            },
            Ok(next) => {
                lemma_index_table_step(index, tables[0]);
                lemma_index_tables_ok(next, rest);
                assert(next.has_table(table_key(tables[0]).0, table_key(tables[0]).1));
                if index.index_tables_from(tables).1 is Ok {
                    assert forall|i: int| 0 <= i < tables.len() implies (#[trigger] tables[i]).column_names().no_duplicates() by {
                        if i > 0 {
                            assert(rest[i - 1].column_names().no_duplicates());
                        }
                    }
                    assert forall|i: int, j: int| 0 <= i < j < tables.len() implies table_key(
                        #[trigger] tables[i],
                    ) != table_key(#[trigger] tables[j]) by {
                        if i == 0 {
                            assert(!next.has_table(table_key(rest[j - 1]).0, table_key(rest[j - 1]).1));
                        } else {
                            assert(table_key(rest[i - 1]) != table_key(rest[j - 1]));
                        }
                    }
                    assert forall|i: int, j: int|
                        0 <= i < j < tables.len() && (#[trigger] tables[i]).ident.alias is Some implies tables[i].ident.alias
                        != (#[trigger] tables[j]).ident.alias by {
                        if i == 0 {
                            if rest[j - 1].ident.alias is Some {
                                assert(!next.aliases.contains_key(rest[j - 1].ident.alias.unwrap()));
                            }
                        } else {
                            assert(rest[i - 1].ident.alias is Some);
                            assert(rest[i - 1].ident.alias != rest[j - 1].ident.alias);
                        }
                    }
                    assert forall|i: int| 0 <= i < tables.len() implies !index.has_table(
                        table_key(#[trigger] tables[i]).0,
                        table_key(tables[i]).1,
                    ) by {
                        if i > 0 {
                            assert(!next.has_table(table_key(rest[i - 1]).0, table_key(rest[i - 1]).1));
                        }
                    }
                    assert forall|i: int|
                        0 <= i < tables.len() && (#[trigger] tables[i]).ident.alias is Some implies !index.aliases.contains_key(
                        tables[i].ident.alias.unwrap(),
                    ) by {
                        if i > 0 {
                            assert(rest[i - 1].ident.alias is Some);
                            assert(!next.aliases.contains_key(rest[i - 1].ident.alias.unwrap()));
                        }
                    }
                }
                if columns_unique(tables) && table_names_unique(tables) && aliases_unique(tables)
                    && tables_new_to(index, tables) {
                    assert forall|i: int| 0 <= i < rest.len() implies (#[trigger] rest[i]).column_names().no_duplicates() by {
                        assert(tables[i + 1].column_names().no_duplicates());
                    }
                    assert forall|i: int, j: int| 0 <= i < j < rest.len() implies table_key(
                        #[trigger] rest[i],
                    ) != table_key(#[trigger] rest[j]) by {
                        assert(table_key(tables[i + 1]) != table_key(tables[j + 1]));
                    }
                    assert forall|i: int, j: int|
                        0 <= i < j < rest.len() && (#[trigger] rest[i]).ident.alias is Some implies rest[i].ident.alias
                        != (#[trigger] rest[j]).ident.alias by {
                        assert(tables[i + 1].ident.alias is Some);
                        assert(tables[i + 1].ident.alias != tables[j + 1].ident.alias);
                    }
                    assert forall|i: int| 0 <= i < rest.len() implies !next.has_table(
                        table_key(#[trigger] rest[i]).0,
                        table_key(rest[i]).1,
                    ) by {
                        assert(table_key(tables[0]) != table_key(tables[i + 1]));
                        assert(!index.has_table(
                            table_key(tables[i + 1]).0,
                            table_key(tables[i + 1]).1,
                        ));
                    }
                    assert forall|i: int|
                        0 <= i < rest.len() && (#[trigger] rest[i]).ident.alias is Some implies !next.aliases.contains_key(
                        rest[i].ident.alias.unwrap(),
                    ) by {
                        assert(tables[i + 1].ident.alias is Some);
                        assert(!index.aliases.contains_key(tables[i + 1].ident.alias.unwrap()));
                        if tables[0].ident.alias is Some {
                            assert(tables[0].ident.alias != tables[i + 1].ident.alias);
                        }
                    }
                }
            },
        }
    }
}

/// Enums can be indexed exactly when no two values of an enum are equal, no
/// two enums share a schema and a name, and none of the names is in the index
/// already.
pub proof fn lemma_index_enums_ok(index: IndexerView, enums: Seq<EnumBlockView>)
    ensures
        index.index_enums_from(enums).1 is Ok <==> values_unique(enums) && enum_names_unique(enums)
            && enums_new_to(index, enums),
        index.index_enums_from(enums).1 is Ok ==> index.index_enums_from(enums).0.aliases
            == index.aliases && forall|s: Seq<char>, n: Seq<char>|
            index.has_table(s, n) <==> #[trigger] index.index_enums_from(enums).0.has_table(s, n),
    decreases enums.len(),
{
    if enums.len() > 0 {
        let rest = enums.drop_first();
        assert(forall|i: int| 0 <= i < rest.len() ==> rest[i] == enums[i + 1]);
        match index.index_enum_step(enums[0]) {
            Err(_) => {
                if values_unique(enums) && enum_names_unique(enums) && enums_new_to(index, enums) {
                    assert(enums[0].value_names().no_duplicates());
                    assert(false);
                }
            },
            Ok(next) => {
                lemma_index_enum_step(index, enums[0]);
                lemma_index_enums_ok(next, rest);
                assert(next.has_enum(enum_key(enums[0]).0, enum_key(enums[0]).1));
                if index.index_enums_from(enums).1 is Ok {
                    assert forall|i: int| 0 <= i < enums.len() implies (#[trigger] enums[i]).value_names().no_duplicates() by {
                        if i > 0 {
                            assert(rest[i - 1].value_names().no_duplicates());
                        }
                    }
                    assert forall|i: int, j: int| 0 <= i < j < enums.len() implies enum_key(
                        #[trigger] enums[i],
                    ) != enum_key(#[trigger] enums[j]) by {
                        if i == 0 {
                            assert(!next.has_enum(enum_key(rest[j - 1]).0, enum_key(rest[j - 1]).1));
                        } else {
                            assert(enum_key(rest[i - 1]) != enum_key(rest[j - 1]));
                        }
                    }
                    assert forall|i: int| 0 <= i < enums.len() implies !index.has_enum(
                        enum_key(#[trigger] enums[i]).0,
                        enum_key(enums[i]).1,
                    ) by {
                        if i > 0 {
                            assert(!next.has_enum(enum_key(rest[i - 1]).0, enum_key(rest[i - 1]).1));
                        }
                    }
                }
                if values_unique(enums) && enum_names_unique(enums) && enums_new_to(index, enums) {
                    assert forall|i: int| 0 <= i < rest.len() implies (#[trigger] rest[i]).value_names().no_duplicates() by {
                        assert(enums[i + 1].value_names().no_duplicates());
                    }
                    assert forall|i: int, j: int| 0 <= i < j < rest.len() implies enum_key(
                        #[trigger] rest[i],
                    ) != enum_key(#[trigger] rest[j]) by {
                        assert(enum_key(enums[i + 1]) != enum_key(enums[j + 1]));
                    }
                    assert forall|i: int| 0 <= i < rest.len() implies !next.has_enum(
                        enum_key(#[trigger] rest[i]).0,
                        enum_key(rest[i]).1,
                    ) by {
                        assert(enum_key(enums[0]) != enum_key(enums[i + 1]));
                        assert(!index.has_enum(enum_key(enums[i + 1]).0, enum_key(enums[i + 1]).1));
                    }
                }
            },
        }
    }
}

/// A description's tables and enums can be indexed, starting from nothing,
/// exactly when all names are unique: those of the columns in each table, of
/// the values in each enum, of the tables and of the enums in each schema,
/// and the aliases.
pub proof fn lemma_indexing_succeeds_iff_unique(
    tables: Seq<TableBlockView>,
    enums: Seq<EnumBlockView>,
)
    ensures
        ({
            let with_tables = IndexerView::empty().index_tables_from(tables);
            with_tables.1 is Ok && with_tables.0.index_enums_from(enums).1 is Ok
        }) <==> (columns_unique(tables) && table_names_unique(tables) && aliases_unique(tables)
            && values_unique(enums) && enum_names_unique(enums)),
{
    let empty = IndexerView::empty();
    lemma_index_tables_ok(empty, tables);
    assert(tables_new_to(empty, tables));
    let with_tables = empty.index_tables_from(tables);
    lemma_index_enums_ok(with_tables.0, enums);
    if with_tables.1 is Ok {
        lemma_index_tables_keep_enums(empty, tables);
        assert(enums_new_to(with_tables.0, enums));
    }
}

/// Indexing tables leaves the enums of the index as they are.
pub proof fn lemma_index_tables_keep_enums(index: IndexerView, tables: Seq<TableBlockView>)
    ensures
        forall|s: Seq<char>, n: Seq<char>|
            index.has_enum(s, n) <==> #[trigger] index.index_tables_from(tables).0.has_enum(s, n),
    decreases tables.len(),
{
    if tables.len() > 0 {
        match index.index_table_step(tables[0]) {
            Err(_) => {},
            Ok(next) => {
                lemma_index_table_step(index, tables[0]);
                lemma_index_tables_keep_enums(next, tables.drop_first());
                let last = next.index_tables_from(tables.drop_first()).0;
                assert(index.index_tables_from(tables).0 == last);
                assert forall|s: Seq<char>, n: Seq<char>|
                    index.has_enum(s, n) <==> #[trigger] last.has_enum(s, n) by {
                    assert(next.has_enum(s, n) <==> last.has_enum(s, n));
                    assert(index.index_table_step(tables[0]).unwrap().has_enum(s, n)
                        <==> index.has_enum(s, n));
                }
            },
        }
    }
}

/// The primary key of a table has the right shape exactly when at most one
/// column is marked as primary key and that column is neither nullable nor
/// an array.
pub open spec fn primary_key_shape(table: TableBlockView) -> bool {
    &&& forall|i: int|
        0 <= i < table.cols.len() && (#[trigger] table.cols[i]).settings.is_pk
            ==> !table.cols[i].settings.is_nullable && !table.cols[i].settings.is_array
    &&& forall|i: int, j: int|
        0 <= i < j < table.cols.len() ==> !((#[trigger] table.cols[i]).settings.is_pk
            && (#[trigger] table.cols[j]).settings.is_pk)
}

/// Checking the primary key succeeds exactly on the tables whose primary key
/// has the right shape.
pub proof fn lemma_primary_key_check(table: TableBlockView)
    ensures
        primary_key_check(table) is Ok <==> primary_key_shape(table),
{
    let results = Seq::new(table.cols.len(), |i: int| primary_key_result(table.cols, i));
    lemma_first_failure_ok(results);
    if primary_key_check(table) is Ok {
        assert forall|i: int|
            0 <= i < table.cols.len() && (#[trigger] table.cols[i]).settings.is_pk implies !table.cols[i].settings.is_nullable
            && !table.cols[i].settings.is_array by {
            assert(results[i] is Ok);
        }
        assert forall|i: int, j: int| 0 <= i < j < table.cols.len() implies !((#[trigger] table.cols[i]).settings.is_pk
            && (#[trigger] table.cols[j]).settings.is_pk) by {
            assert(results[j] is Ok);
        }
    }
    if primary_key_shape(table) {
        assert forall|i: int| 0 <= i < results.len() implies (#[trigger] results[i]) is Ok by {
            if table.cols[i].settings.is_pk {
                if exists|j: int| 0 <= j < i && (#[trigger] table.cols[j]).settings.is_pk {
                    let j = choose|j: int| 0 <= j < i && (#[trigger] table.cols[j]).settings.is_pk;
                    assert(!(table.cols[j].settings.is_pk && table.cols[i].settings.is_pk));
                }
            }
        }
    }
}

/// Whether a column type is resolved: a scalar kind or an enum.
pub open spec fn type_resolved(table: TableBlockView) -> bool {
    forall|i: int|
        0 <= i < table.cols.len() ==> {
            let t = (#[trigger] table.cols[i]).col_type;
            t.is_scalar() || t is Enum
        }
}

/// Resolving a table changes nothing but the types of its columns, which
/// are then scalar kinds or enums; and it succeeds only when the primary
/// key has the right shape.
pub proof fn lemma_resolved_table(table: TableBlockView, index: IndexerView)
    requires
        resolve_table_spec(table, index) is Ok,
    ensures
        ({
            let out = resolve_table_spec(table, index).unwrap();
            &&& out.ident == table.ident
            &&& out.note == table.note
            &&& out.indexes == table.indexes
            &&& out.cols.len() == table.cols.len()
            &&& out.column_names() == table.column_names()
            &&& forall|i: int|
                0 <= i < table.cols.len() ==> (#[trigger] out.cols[i]).settings
                    == table.cols[i].settings && out.cols[i].args == table.cols[i].args
                    && out.cols[i].name == table.cols[i].name
            &&& type_resolved(out)
            &&& primary_key_shape(out)
            &&& table_key(out) == table_key(table)
        }),
{
    let out = resolve_table_spec(table, index).unwrap();
    lemma_first_failure_ok(column_results(table, index));
    lemma_primary_key_check(table);
    assert(out.column_names() =~= table.column_names());
    assert forall|i: int| 0 <= i < out.cols.len() implies {
        let t = (#[trigger] out.cols[i]).col_type;
        t.is_scalar() || t is Enum
    } by {
        assert(column_results(table, index)[i] is Ok);
        assert(out.cols[i] == resolved_column(table.cols[i], index));
    }
    assert forall|i: int|
        0 <= i < out.cols.len() && (#[trigger] out.cols[i]).settings.is_pk implies !out.cols[i].settings.is_nullable
        && !out.cols[i].settings.is_array by {
        assert(table.cols[i].settings.is_pk);
    }
    assert forall|i: int, j: int| 0 <= i < j < out.cols.len() implies !((#[trigger] out.cols[i]).settings.is_pk
        && (#[trigger] out.cols[j]).settings.is_pk) by {
        assert(!(table.cols[i].settings.is_pk && table.cols[j].settings.is_pk));
    }
}

/// No two relations have the same left side, once aliases are replaced by
/// what they stand for.
pub open spec fn lhs_unique(refs: Seq<IndexedRefBlockView>, index: IndexerView) -> bool {
    forall|i: int, j: int|
        0 <= i < j < refs.len() ==> !(#[trigger] refs[i]).same_lhs(#[trigger] refs[j], index)
}

/// A relation with the left side of the one at `i` counts once more than
/// those before `i`.
pub proof fn lemma_count_same_lhs_from(
    refs: Seq<IndexedRefBlockView>,
    block: IndexedRefBlockView,
    index: IndexerView,
    i: int,
)
    requires
        0 <= i < refs.len(),
        block.same_lhs(refs[i], index),
    ensures
        count_same_lhs(refs, block, index) >= 1 + count_same_lhs(refs.take(i), block, index),
    decreases refs.len(),
{
    let front = refs.drop_last();
    if i == refs.len() - 1 {
        assert(refs.take(i) =~= front);
    } else {
        lemma_count_same_lhs_from(front, block, index, i);
        assert(front.take(i) =~= refs.take(i));
    }
}

/// Where no relation has the left side of a given one, the count is zero.
pub proof fn lemma_count_same_lhs_none(
    refs: Seq<IndexedRefBlockView>,
    block: IndexedRefBlockView,
    index: IndexerView,
)
    requires
        forall|k: int| 0 <= k < refs.len() ==> !block.same_lhs(#[trigger] refs[k], index),
    ensures
        count_same_lhs(refs, block, index) == 0,
    decreases refs.len(),
{
    if refs.len() > 0 {
        let front = refs.drop_last();
        assert(forall|k: int| 0 <= k < front.len() ==> front[k] == refs[k]);
        lemma_count_same_lhs_none(front, block, index);
        assert(!block.same_lhs(refs[refs.len() - 1], index));
    }
}

/// Where exactly the relation at `i` has the left side of a given one, the
/// count is one.
pub proof fn lemma_count_same_lhs_one(
    refs: Seq<IndexedRefBlockView>,
    block: IndexedRefBlockView,
    index: IndexerView,
    i: int,
)
    requires
        0 <= i < refs.len(),
        forall|k: int|
            0 <= k < refs.len() ==> (block.same_lhs(#[trigger] refs[k], index) <==> k == i),
    ensures
        count_same_lhs(refs, block, index) == 1,
    decreases refs.len(),
{
    let front = refs.drop_last();
    assert(forall|k: int| 0 <= k < front.len() ==> front[k] == refs[k]);
    if i == refs.len() - 1 {
        lemma_count_same_lhs_none(front, block, index);
    } else {
        lemma_count_same_lhs_one(front, block, index, i);
        assert(!block.same_lhs(refs[refs.len() - 1], index));
    }
}

/// Every relation is alone with its left side exactly when no two relations
/// share one.
pub proof fn lemma_counts_one_iff_unique(refs: Seq<IndexedRefBlockView>, index: IndexerView)
    ensures
        (forall|i: int|
            0 <= i < refs.len() ==> count_same_lhs(refs, #[trigger] refs[i], index) == 1)
            <==> lhs_unique(refs, index),
{
    if forall|i: int| 0 <= i < refs.len() ==> count_same_lhs(refs, #[trigger] refs[i], index) == 1 {
        assert forall|i: int, j: int| 0 <= i < j < refs.len() implies !(#[trigger] refs[i]).same_lhs(
            #[trigger] refs[j],
            index,
        ) by {
            if refs[i].same_lhs(refs[j], index) {
                lemma_count_same_lhs_from(refs, refs[i], index, j);
                lemma_count_same_lhs_from(refs.take(j), refs[i], index, i);
                assert(count_same_lhs(refs, refs[i], index) == 1);
            }
        }
    }
    if lhs_unique(refs, index) {
        assert forall|i: int| 0 <= i < refs.len() implies count_same_lhs(
            refs,
            #[trigger] refs[i],
            index,
        ) == 1 by {
            assert forall|k: int| 0 <= k < refs.len() implies (refs[i].same_lhs(
                #[trigger] refs[k],
                index,
            ) <==> k == i) by {
                if k < i {
                    assert(!refs[k].same_lhs(refs[i], index));
                } else if i < k {
                    assert(!refs[i].same_lhs(refs[k], index));
                }
            }
            lemma_count_same_lhs_one(refs, refs[i], index, i);
        }
    }
}

/// Each relation names one owning side, and its two sides are columns that
/// exist, one each, of the same type.
pub open spec fn refs_sound(
    refs: Seq<IndexedRefBlockView>,
    tables: Seq<TableBlockView>,
    index: IndexerView,
) -> bool {
    forall|i: int|
        0 <= i < refs.len() ==> (#[trigger] refs[i]).rel.has_owning_side() && refs[i].type_check(
            tables,
            index,
        ) is Ok
}

/// The relations pass validation exactly when each of them names one owning
/// side and joins two existing columns of the same type, one on each side,
/// and no two of them share a left side.
pub proof fn lemma_validated_refs(
    refs: Seq<IndexedRefBlockView>,
    tables: Seq<TableBlockView>,
    index: IndexerView,
)
    ensures
        validate_refs_spec(refs, tables, index) is Ok <==> refs_sound(refs, tables, index)
            && lhs_unique(refs, index),
{
    let results = ref_results(refs, tables, index);
    lemma_first_failure_ok(results);
    lemma_counts_one_iff_unique(refs, index);
    if validate_refs_spec(refs, tables, index) is Ok {
        assert forall|i: int| 0 <= i < refs.len() implies (#[trigger] refs[i]).rel.has_owning_side()
            && refs[i].type_check(tables, index) is Ok && count_same_lhs(refs, refs[i], index)
            == 1 by {
            assert(results[i] is Ok);
        }
    }
    if refs_sound(refs, tables, index) && lhs_unique(refs, index) {
        assert forall|i: int| 0 <= i < results.len() implies (#[trigger] results[i]) is Ok by {
            assert(refs[i].rel.has_owning_side());
            assert(count_same_lhs(refs, refs[i], index) == 1);
        }
    }
}

/// A relation that passes the type check has one column on each side once
/// aliases are replaced, both columns exist, and they have the same type.
pub proof fn lemma_type_checked(
    block: IndexedRefBlockView,
    tables: Seq<TableBlockView>,
    index: IndexerView,
)
    requires
        block.type_check(tables, index) is Ok,
    ensures
        ({
            let lhs = index.resolve(block.lhs);
            let rhs = index.resolve(block.rhs);
            &&& lhs.compositions.len() == 1
            &&& rhs.compositions.len() == 1
            &&& block.lhs.compositions.len() == 1
            &&& block.rhs.compositions.len() == 1
            &&& index.lookup_table_fields(lhs.schema, lhs.table, lhs.compositions) is Ok
            &&& index.lookup_table_fields(rhs.schema, rhs.table, rhs.compositions) is Ok
            &&& column_type_of(tables, lhs.schema, lhs.table, lhs.compositions[0]) is Ok
            &&& column_type_of(tables, lhs.schema, lhs.table, lhs.compositions[0])
                == column_type_of(tables, rhs.schema, rhs.table, rhs.compositions[0])
        }),
{
}

/// A relation from one to many or from many to many fails validation for
/// its kind, whatever its sides are; and if every relation before it passes,
/// that is how the validation of all relations fails.
pub proof fn lemma_unsupported_kind_is_rejected(
    refs: Seq<IndexedRefBlockView>,
    i: int,
    tables: Seq<TableBlockView>,
    index: IndexerView,
)
    requires
        0 <= i < refs.len(),
        refs[i].rel == Relation::One2Many || refs[i].rel == Relation::Many2Many,
    ensures
        ref_result(refs, i, tables, index) == Err::<(), AnalysisError>(
            AnalysisError::UnsupportedRelationKind,
        ),
        validate_refs_spec(refs, tables, index) is Err,
        (forall|j: int| 0 <= j < i ==> ref_result(refs, j, tables, index) is Ok)
            ==> validate_refs_spec(refs, tables, index) == Err::<(), AnalysisError>(
            AnalysisError::UnsupportedRelationKind,
        ),
{
    let results = ref_results(refs, tables, index);
    lemma_first_failure_ok(results);
    assert(results[i] is Err);
    if forall|j: int| 0 <= j < i ==> ref_result(refs, j, tables, index) is Ok {
        assert forall|j: int| 0 <= j < i implies (#[trigger] results[j]) is Ok by {
            assert(ref_result(refs, j, tables, index) is Ok);
        }
        lemma_first_failure_at(results, i);
    }
}

impl SematicSchemaBlockView {
    /// The rules that a validated model keeps: names are unique (tables and
    /// enums in their schema, columns in their table, values in their enum,
    /// aliases among all tables); every column type is a scalar kind or an
    /// enum; a table has at most one primary-key column, which is neither
    /// nullable nor an array; every relation names one owning side and joins
    /// two existing columns of the same type, one on each side; no two
    /// relations share a left side; every member of a table group stands for
    /// a table.
    pub open spec fn well_formed(self) -> bool {
        &&& self.project is Some
        &&& columns_unique(self.tables)
        &&& table_names_unique(self.tables)
        &&& aliases_unique(self.tables)
        &&& values_unique(self.enums)
        &&& enum_names_unique(self.enums)
        &&& forall|i: int|
            0 <= i < self.tables.len() ==> primary_key_shape(#[trigger] self.tables[i])
                && type_resolved(self.tables[i])
        &&& refs_sound(self.refs, self.tables, self.indexer)
        &&& lhs_unique(self.refs, self.indexer)
        &&& self.indexer.check_table_groups(self.table_groups) is Ok
    }
}

/// Every model that analysis returns keeps the rules of a validated model.
pub proof fn lemma_analysis_yields_valid_model(input: SchemaBlockView)
    requires
        analyze_spec(input) is Ok,
    ensures
        analyze_spec(input).unwrap().well_formed(),
{
    let model = analyze_spec(input).unwrap();
    let with_tables = IndexerView::empty().index_tables_from(input.tables);
    let with_enums = with_tables.0.index_enums_from(input.enums);
    let index = with_enums.0;
    assert(model.indexer == index);
    lemma_indexing_succeeds_iff_unique(input.tables, input.enums);
    lemma_validated_refs(model.refs, model.tables, index);
    lemma_first_failure_ok(table_results(input.tables, index));
    assert(resolve_tables_spec(input.tables, index) == Ok::<Seq<TableBlockView>, AnalysisError>(
        model.tables,
    ));
    assert forall|i: int| 0 <= i < model.tables.len() implies resolve_table_spec(
        input.tables[i],
        index,
    ) is Ok && (#[trigger] model.tables[i]) == resolve_table_spec(input.tables[i], index).unwrap() by {
        assert(table_results(input.tables, index)[i] is Ok);
    }
    assert forall|i: int| 0 <= i < model.tables.len() implies primary_key_shape(
        #[trigger] model.tables[i],
    ) && type_resolved(model.tables[i]) && model.tables[i].column_names()
        == input.tables[i].column_names() && model.tables[i].ident == input.tables[i].ident by {
        lemma_resolved_table(input.tables[i], index);
    }
    assert forall|i: int| 0 <= i < model.tables.len() implies (#[trigger] model.tables[i]).column_names().no_duplicates() by {
        assert(input.tables[i].column_names().no_duplicates());
    }
    assert forall|i: int, j: int| 0 <= i < j < model.tables.len() implies table_key(
        #[trigger] model.tables[i],
    ) != table_key(#[trigger] model.tables[j]) by {
        assert(table_key(input.tables[i]) != table_key(input.tables[j]));
    }
    assert forall|i: int, j: int|
        0 <= i < j < model.tables.len() && (#[trigger] model.tables[i]).ident.alias is Some implies model.tables[i].ident.alias
        != (#[trigger] model.tables[j]).ident.alias by {
        assert(input.tables[i].ident.alias is Some);
        assert(input.tables[i].ident.alias != input.tables[j].ident.alias);
    }
}

/// Analysis is a function of the description: two descriptions that are
/// equal have the same outcome, model for model and error for error.
pub proof fn lemma_analysis_is_deterministic(
    first: SchemaBlockView,
    second: SchemaBlockView,
    first_outcome: Result<SematicSchemaBlockView, AnalysisError>,
    second_outcome: Result<SematicSchemaBlockView, AnalysisError>,
)
    requires
        first == second,
        first_outcome == analyze_spec(first),
        second_outcome == analyze_spec(second),
    ensures
        first_outcome == second_outcome,
{
}

/// A relation is in one of the three lists of a table exactly when it
/// touches the table, and then in the list of its direction and in no other.
pub proof fn lemma_refs_in_direction(
    refs: Seq<IndexedRefBlockView>,
    ident: TableIdentView,
    index: IndexerView,
    wanted: RefDirection,
)
    ensures
        forall|k: int|
            0 <= k < refs_in_direction(refs, ident, index, wanted).len() ==> direction(
                #[trigger] refs_in_direction(refs, ident, index, wanted)[k],
                ident,
                index,
            ) == Some(wanted) && refs.contains(refs_in_direction(refs, ident, index, wanted)[k]),
        forall|i: int|
            0 <= i < refs.len() && direction(#[trigger] refs[i], ident, index) == Some(wanted)
                ==> refs_in_direction(refs, ident, index, wanted).contains(refs[i]),
        refs_in_direction(refs, ident, index, wanted).len() <= refs.len(),
    decreases refs.len(),
{
    if refs.len() > 0 {
        let front = refs.drop_last();
        let last = refs.last();
        lemma_refs_in_direction(front, ident, index, wanted);
        let chosen_front = refs_in_direction(front, ident, index, wanted);
        let chosen = refs_in_direction(refs, ident, index, wanted);
        assert(forall|i: int| 0 <= i < front.len() ==> front[i] == refs[i]);
        assert forall|k: int| 0 <= k < chosen.len() implies direction(
            #[trigger] chosen[k],
            ident,
            index,
        ) == Some(wanted) && refs.contains(chosen[k]) by {
            if k < chosen_front.len() {
                assert(chosen[k] == chosen_front[k]);
                assert(front.contains(chosen_front[k]));
                let w = choose|w: int| 0 <= w < front.len() && front[w] == chosen_front[k];
                assert(refs[w] == chosen[k]);
            } else {
                assert(chosen[k] == last);
                assert(refs[refs.len() - 1] == last);
            }
        }
        assert forall|i: int|
            0 <= i < refs.len() && direction(#[trigger] refs[i], ident, index) == Some(
                wanted,
            ) implies chosen.contains(refs[i]) by {
            if i < front.len() {
                assert(chosen_front.contains(front[i]));
                let w = choose|w: int| 0 <= w < chosen_front.len() && chosen_front[w] == front[i];
                assert(chosen[w] == refs[i]);
            } else {
                assert(chosen[chosen.len() - 1] == refs[i]);
            }
        }
    }
}

/// The three lists of a table hold, between them, as many relations as
/// touch the table: none is left out and none is listed twice.
pub proof fn lemma_refs_are_partitioned(
    refs: Seq<IndexedRefBlockView>,
    ident: TableIdentView,
    index: IndexerView,
)
    ensures
        refs_in_direction(refs, ident, index, RefDirection::To).len() + refs_in_direction(
            refs,
            ident,
            index,
            RefDirection::By,
        ).len() + refs_in_direction(refs, ident, index, RefDirection::Itself).len()
            + untouched(refs, ident, index) == refs.len(),
    decreases refs.len(),
{
    if refs.len() > 0 {
        lemma_refs_are_partitioned(refs.drop_last(), ident, index);
    }
}

/// How many of the relations do not touch the table.
pub open spec fn untouched(
    refs: Seq<IndexedRefBlockView>,
    ident: TableIdentView,
    index: IndexerView,
) -> nat
    decreases refs.len(),
{
    if refs.len() == 0 {
        0
    } else {
        untouched(refs.drop_last(), ident, index) + if direction(refs.last(), ident, index)
            is None {
            1nat
        } else {
            0nat
        }
    }
}

/// Where the relation declared at `k` on column `c` of a table stands among
/// the relations of the table's first `n` columns.
pub proof fn lemma_table_ref_position(table: TableBlockView, n: nat, c: int, k: int) -> (pos: int)
    requires
        0 <= c < n <= table.cols.len(),
        0 <= k < table.cols[c].settings.refs.len(),
    ensures
        0 <= pos < table_refs(table, n).len(),
        table_refs(table, n)[pos] == IndexedRefBlockView::of_inline(
            table.cols[c].settings.refs[k],
            table.ident,
            table.cols[c].name,
        ),
    decreases n,
{
    if c == n - 1 {
        assert(column_refs(table, c)[k] == IndexedRefBlockView::of_inline(
            table.cols[c].settings.refs[k],
            table.ident,
            table.cols[c].name,
        ));
        table_refs(table, (n - 1) as nat).len() + k
    } else {
        lemma_table_ref_position(table, (n - 1) as nat, c, k)
    }
}

/// Where the relation declared at `k` on column `c` of table `t` stands
/// among the relations declared on the columns of the first `n` tables.
pub proof fn lemma_inline_ref_position(
    tables: Seq<TableBlockView>,
    n: nat,
    t: int,
    c: int,
    k: int,
) -> (pos: int)
    requires
        0 <= t < n <= tables.len(),
        0 <= c < tables[t].cols.len(),
        0 <= k < tables[t].cols[c].settings.refs.len(),
    ensures
        0 <= pos < inline_refs(tables, n).len(),
        inline_refs(tables, n)[pos] == IndexedRefBlockView::of_inline(
            tables[t].cols[c].settings.refs[k],
            tables[t].ident,
            tables[t].cols[c].name,
        ),
    decreases n,
{
    if t == n - 1 {
        let inner = lemma_table_ref_position(tables[t], tables[t].cols.len(), c, k);
        inline_refs(tables, (n - 1) as nat).len() + inner
    } else {
        lemma_inline_ref_position(tables, (n - 1) as nat, t, c, k)
    }
}

/// Analysis never accepts a description that declares, at top level, a
/// relation from one to many or from many to many.
pub proof fn lemma_analysis_rejects_kind_at_top_level(input: SchemaBlockView, i: int)
    requires
        0 <= i < input.refs.len(),
        input.refs[i].rel == Relation::One2Many || input.refs[i].rel == Relation::Many2Many,
    ensures
        analyze_spec(input) is Err,
{
    if analyze_spec(input) is Ok {
        let model = analyze_spec(input).unwrap();
        lemma_analysis_yields_valid_model(input);
        let explicit = explicit_refs(input.refs).unwrap();
        assert(model.refs[i] == explicit[i]);
        assert(model.refs[i].rel.has_owning_side());
    }
}

/// Analysis never accepts a description that declares, on a column, a
/// relation from one to many or from many to many.
pub proof fn lemma_analysis_rejects_kind_on_column(input: SchemaBlockView, t: int, c: int, k: int)
    requires
        0 <= t < input.tables.len(),
        0 <= c < input.tables[t].cols.len(),
        0 <= k < input.tables[t].cols[c].settings.refs.len(),
        input.tables[t].cols[c].settings.refs[k].rel == Relation::One2Many
            || input.tables[t].cols[c].settings.refs[k].rel == Relation::Many2Many,
    ensures
        analyze_spec(input) is Err,
{
    if analyze_spec(input) is Ok {
        let model = analyze_spec(input).unwrap();
        lemma_analysis_yields_valid_model(input);
        let explicit = explicit_refs(input.refs).unwrap();
        let pos = lemma_inline_ref_position(input.tables, input.tables.len(), t, c, k);
        assert(model.refs[explicit.len() + pos] == inline_refs(
            input.tables,
            input.tables.len(),
        )[pos]);
        assert(model.refs[explicit.len() + pos].rel.has_owning_side());
    }
}

/// Analysis never accepts a description in which a table marks two columns
/// as primary key, or marks a nullable or an array column as primary key.
pub proof fn lemma_analysis_rejects_primary_key_shape(input: SchemaBlockView, t: int)
    requires
        0 <= t < input.tables.len(),
        !primary_key_shape(input.tables[t]),
    ensures
        analyze_spec(input) is Err,
{
    if analyze_spec(input) is Ok {
        let with_tables = IndexerView::empty().index_tables_from(input.tables);
        let index = with_tables.0.index_enums_from(input.enums).0;
        lemma_first_failure_ok(table_results(input.tables, index));
        assert(table_results(input.tables, index)[t] is Ok);
        lemma_primary_key_check(input.tables[t]);
    }
}

/// Analysis never accepts a description in which two names collide: two
/// columns of a table, two tables or two enums of a schema, two values of an
/// enum, or two aliases.
pub proof fn lemma_analysis_rejects_collisions(input: SchemaBlockView)
    requires
        !(columns_unique(input.tables) && table_names_unique(input.tables) && aliases_unique(
            input.tables,
        ) && values_unique(input.enums) && enum_names_unique(input.enums)),
    ensures
        analyze_spec(input) is Err,
{
    lemma_indexing_succeeds_iff_unique(input.tables, input.enums);
}

/// The index holds each of the tables under its schema and name, with the
/// names of its columns.
pub open spec fn index_holds(index: IndexerView, tables: Seq<TableBlockView>) -> bool {
    forall|i: int|
        0 <= i < tables.len() ==> {
            let key = table_key(#[trigger] tables[i]);
            index.has_table(key.0, key.1) && index.schema(key.0).tables[key.1]
                == tables[i].column_names().to_set()
        }
}

/// Every table that the second index holds is held by the first, or is one
/// of the tables.
pub open spec fn index_holds_at_most(
    before: IndexerView,
    index: IndexerView,
    tables: Seq<TableBlockView>,
) -> bool {
    forall|s: Seq<char>, n: Seq<char>| #[trigger]
        index.has_table(s, n) ==> before.has_table(s, n) || exists|i: int|
            0 <= i < tables.len() && table_key(#[trigger] tables[i]) == (s, n)
}

/// Every table that the first index holds, the second holds with the same
/// columns.
pub open spec fn index_keeps(before: IndexerView, index: IndexerView) -> bool {
    forall|s: Seq<char>, n: Seq<char>| #[trigger]
        before.has_table(s, n) ==> index.has_table(s, n) && index.schema(s).tables[n]
            == before.schema(s).tables[n]
}

/// After indexing, the index holds the tables that it held before and the
/// tables that were indexed, each with its columns, and no others.
pub proof fn lemma_index_holds_tables(index: IndexerView, tables: Seq<TableBlockView>)
    requires
        index.index_tables_from(tables).1 is Ok,
    ensures
        index_holds(index.index_tables_from(tables).0, tables),
        index_holds_at_most(index, index.index_tables_from(tables).0, tables),
        index_keeps(index, index.index_tables_from(tables).0),
    decreases tables.len(),
{
    let last = index.index_tables_from(tables).0;
    if tables.len() > 0 {
        let rest = tables.drop_first();
        assert(forall|i: int| 0 <= i < rest.len() ==> rest[i] == tables[i + 1]);
        let next = index.index_table_step(tables[0]).unwrap();
        let key = table_key(tables[0]);
        lemma_index_holds_tables(next, rest);
        assert(last == next.index_tables_from(rest).0);
        assert(next.has_table(key.0, key.1));
        assert(next.schema(key.0).tables[key.1] == tables[0].column_names().to_set());
        assert forall|s: Seq<char>, n: Seq<char>| #[trigger] index.has_table(s, n) implies next.has_table(
            s,
            n,
        ) && next.schema(s).tables[n] == index.schema(s).tables[n] by {
            assert((s, n) != key);
        }
        assert forall|i: int| 0 <= i < tables.len() implies {
            let k = table_key(#[trigger] tables[i]);
            last.has_table(k.0, k.1) && last.schema(k.0).tables[k.1]
                == tables[i].column_names().to_set()
        } by {
            if i > 0 {
                let k = table_key(rest[i - 1]);
                assert(last.has_table(k.0, k.1));
            }
        }
        assert forall|s: Seq<char>, n: Seq<char>| #[trigger] last.has_table(s, n) implies index.has_table(
            s,
            n,
        ) || exists|i: int| 0 <= i < tables.len() && table_key(#[trigger] tables[i]) == (s, n) by {
            if !next.has_table(s, n) {
                let i = choose|i: int| 0 <= i < rest.len() && table_key(#[trigger] rest[i]) == (s, n);
                assert(table_key(tables[i + 1]) == (s, n));
            } else if !index.has_table(s, n) {
                assert(table_key(tables[0]) == (s, n));
            }
        }
        assert forall|s: Seq<char>, n: Seq<char>| #[trigger] index.has_table(s, n) implies last.has_table(
            s,
            n,
        ) && last.schema(s).tables[n] == index.schema(s).tables[n] by {
            assert(next.has_table(s, n));
        }
    }
}

/// Indexing enums leaves the tables of the index as they are.
pub proof fn lemma_index_enums_keep_tables(index: IndexerView, enums: Seq<EnumBlockView>)
    ensures
        forall|s: Seq<char>| #[trigger]
            index.index_enums_from(enums).0.schema(s).tables == index.schema(s).tables,
    decreases enums.len(),
{
    if enums.len() > 0 {
        match index.index_enum_step(enums[0]) {
            Err(_) => {},
            Ok(next) => {
                lemma_index_enums_keep_tables(next, enums.drop_first());
                let last = next.index_enums_from(enums.drop_first()).0;
                assert forall|s: Seq<char>| #[trigger]
                    last.schema(s).tables == index.schema(s).tables by {
                    assert(last.schema(s).tables == next.schema(s).tables);
                }
            },
        }
    }
}

/// In an analysis, a column that the index knows is found among the
/// resolved tables: once both sides of a relation pass the lookup, its type
/// check fails only for the number of its columns or for their types.
pub proof fn lemma_indexed_column_is_found(
    input: SchemaBlockView,
    schema: Option<Seq<char>>,
    table: Seq<char>,
    column: Seq<char>,
)
    requires
        analyze_spec(input) is Ok,
        analyze_spec(input).unwrap().indexer.lookup_table_fields(schema, table, seq![column])
            is Ok,
    ensures
        column_type_of(analyze_spec(input).unwrap().tables, schema, table, column) is Ok,
{
    let model = analyze_spec(input).unwrap();
    let empty = IndexerView::empty();
    let with_tables = empty.index_tables_from(input.tables).0;
    let index = with_tables.index_enums_from(input.enums).0;
    assert(model.indexer == index);
    lemma_index_holds_tables(empty, input.tables);
    lemma_index_enums_keep_tables(with_tables, input.enums);
    let name = schema_or_default(schema);
    assert(index.schema(name).tables == with_tables.schema(name).tables);
    assert(index.has_table(name, table));
    assert(with_tables.has_table(name, table));
    assert(!empty.has_table(name, table));
    let i = choose|i: int|
        0 <= i < input.tables.len() && table_key(#[trigger] input.tables[i]) == (name, table);
    lemma_first_failure_ok(table_results(input.tables, index));
    assert forall|k: int| 0 <= k < model.tables.len() implies table_key(
        #[trigger] model.tables[k],
    ) == table_key(input.tables[k]) && model.tables[k].column_names()
        == input.tables[k].column_names() by {
        assert(table_results(input.tables, index)[k] is Ok);
        lemma_resolved_table(input.tables[k], index);
    }
    let entries = table_entries(model.tables);
    assert(entries[i].0 == (name, table));
    lemma_key_index_none(entries, (name, table));
    let j = key_index(entries, (name, table)).unwrap();
    lemma_key_index_some(entries, (name, table), j);
    assert(table_key(input.tables[j]) == (name, table));
    assert(table_key(input.tables[j]) == table_key(model.tables[j]));
    let names = input.tables[j].column_names();
    assert(with_tables.schema(name).tables[table] == names.to_set());
    assert(seq![column][0] == column);
    assert(names.to_set().contains(column));
    assert(names.contains(column));
    let c = choose|c: int| 0 <= c < names.len() && names[c] == column;
    let columns = column_entries(model.tables[j]);
    assert(model.tables[j].column_names()[c] == column);
    assert(columns[c].0 == column);
    lemma_key_index_none(columns, column);
}

} // verus!
