//! Tables after indexing: the shape of the primary key, the resolution of
//! column types, and the search for a column by name.

use crate::analyzer::err::AnalysisError;
use crate::analyzer::indexer::{Indexer, IndexerView};
use crate::analyzer::order::{first_failure, lemma_first_failure_hit, lemma_first_failure_step};
use crate::assoc::{key_index, lemma_key_index_none, lemma_key_index_some};
use crate::ast::table::{
    ColumnType, ColumnTypeView, TableBlock, TableBlockView, TableColumn, TableColumnView, Value,
    ValueView,
};
use crate::schema_or_default;
use crate::text::schema_name;
use vstd::prelude::*;

verus! {

/// The schema and name under which a table is known.
pub open spec fn table_key(table: TableBlockView) -> (Seq<char>, Seq<char>) {
    (schema_or_default(table.ident.schema), table.ident.name)
}

/// The tables, each under its schema and name.
pub open spec fn table_entries(tables: Seq<TableBlockView>) -> Seq<
    ((Seq<char>, Seq<char>), TableBlockView),
> {
    Seq::new(tables.len(), |i: int| (table_key(tables[i]), tables[i]))
}

/// The columns of a table, each under its name.
pub open spec fn column_entries(table: TableBlockView) -> Seq<(Seq<char>, TableColumnView)> {
    Seq::new(table.cols.len(), |i: int| (table.cols[i].name, table.cols[i]))
}

/// The type of a column, found by schema, table and column name. Of several
/// tables or columns of one name the first counts.
pub open spec fn column_type_of(
    tables: Seq<TableBlockView>,
    schema: Option<Seq<char>>,
    table: Seq<char>,
    column: Seq<char>,
) -> Result<ColumnTypeView, AnalysisError> {
    match key_index(table_entries(tables), (schema_or_default(schema), table)) {
        None => Err(AnalysisError::TableNotFound),
        Some(i) => match key_index(column_entries(tables[i]), column) {
            None => Err(AnalysisError::ColumnNotFound),
            Some(j) => Ok(tables[i].cols[j].col_type),
        },
    }
}

/// Whether every argument is an integer.
pub open spec fn all_integers(args: Seq<ValueView>) -> bool {
    forall|i: int| 0 <= i < args.len() ==> (#[trigger] args[i]) is Integer
}

/// Whether the arguments fit the kind: none for any kind, one integer for
/// the character kinds, two integers for decimals.
pub open spec fn args_fit(kind: ColumnTypeView, args: Seq<ValueView>) -> bool {
    args.len() == 0 || (all_integers(args) && match kind {
        ColumnTypeView::Char | ColumnTypeView::VarChar => args.len() == 1,
        ColumnTypeView::Decimal => args.len() == 2,
        _ => false,
    })
}

/// The type that a column's raw token resolves to: a scalar kind, or an enum
/// declared in the default schema.
pub open spec fn resolve_column_type(column: TableColumnView, index: IndexerView) -> Result<
    ColumnTypeView,
    AnalysisError,
> {
    match column.col_type {
        ColumnTypeView::Raw(token) => match ColumnTypeView::of_token(token) {
            Some(kind) => if args_fit(kind, column.args) {
                Ok(kind)
            } else {
                Err(AnalysisError::InvalidTypeArguments)
            },
            None => if index.lookup_enum_values(None, token, Seq::empty()) is Ok {
                Ok(ColumnTypeView::Enum(token))
            } else {
                Err(AnalysisError::UnresolvedType)
            },
        },
        _ => Err(AnalysisError::UnresolvedType),
    }
}

/// Whether a column's type resolves.
pub open spec fn column_result(column: TableColumnView, index: IndexerView) -> Result<
    (),
    AnalysisError,
> {
    match resolve_column_type(column, index) {
        Ok(_) => Ok(()),
        Err(e) => Err(e),
    }
}

/// A column with its type resolved.
pub open spec fn resolved_column(column: TableColumnView, index: IndexerView) -> TableColumnView {
    TableColumnView { col_type: resolve_column_type(column, index).unwrap(), ..column }
}

/// Whether the column at `i` is acceptable as far as primary keys go: if it
/// is one, it is neither nullable nor an array, and no column before it is
/// one.
pub open spec fn primary_key_result(columns: Seq<TableColumnView>, i: int) -> Result<
    (),
    AnalysisError,
> {
    let settings = columns[i].settings;
    if !settings.is_pk {
        Ok(())
    } else if settings.is_nullable {
        Err(AnalysisError::NullablePrimaryKey)
    } else if settings.is_array {
        Err(AnalysisError::ArrayPrimaryKey)
    } else if exists|j: int| 0 <= j < i && (#[trigger] columns[j]).settings.is_pk {
        Err(AnalysisError::DuplicatePrimaryKey)
    } else {
        Ok(())
    }
}

/// Whether the primary key of a table has the right shape; if not, what is
/// wrong with the first column that breaks it.
pub open spec fn primary_key_check(table: TableBlockView) -> Result<(), AnalysisError> {
    first_failure(Seq::new(table.cols.len(), |i: int| primary_key_result(table.cols, i)))
}

/// The results of resolving each column of a table.
pub open spec fn column_results(table: TableBlockView, index: IndexerView) -> Seq<
    Result<(), AnalysisError>,
> {
    Seq::new(table.cols.len(), |i: int| column_result(table.cols[i], index))
}

/// A table with the type of each column resolved, or the first rule that it
/// breaks: the shape of the primary key first, then the columns in order.
pub open spec fn resolve_table_spec(table: TableBlockView, index: IndexerView) -> Result<
    TableBlockView,
    AnalysisError,
> {
    match primary_key_check(table) {
        Err(e) => Err(e),
        Ok(()) => match first_failure(column_results(table, index)) {
            Err(e) => Err(e),
            Ok(()) => Ok(
                TableBlockView {
                    cols: Seq::new(
                        table.cols.len(),
                        |i: int| resolved_column(table.cols[i], index),
                    ),
                    ..table
                },
            ),
        },
    }
}

/// Whether a table resolves.
pub open spec fn table_result(table: TableBlockView, index: IndexerView) -> Result<
    (),
    AnalysisError,
> {
    match resolve_table_spec(table, index) {
        Ok(_) => Ok(()),
        Err(e) => Err(e),
    }
}

/// The results of resolving each table.
pub open spec fn table_results(tables: Seq<TableBlockView>, index: IndexerView) -> Seq<
    Result<(), AnalysisError>,
> {
    Seq::new(tables.len(), |i: int| table_result(tables[i], index))
}

/// The tables with every column type resolved, or the first rule that is
/// broken, going through the tables in order.
pub open spec fn resolve_tables_spec(tables: Seq<TableBlockView>, index: IndexerView) -> Result<
    Seq<TableBlockView>,
    AnalysisError,
> {
    match first_failure(table_results(tables, index)) {
        Err(e) => Err(e),
        Ok(()) => Ok(Seq::new(tables.len(), |i: int| resolve_table_spec(tables[i], index).unwrap())),
    }
}

/// The position of the first table known under the schema and name.
pub fn find_table(tables: &Vec<TableBlock>, schema: &String, name: &String) -> (r: Option<usize>)
    ensures
        match r {
            Some(i) => i < tables.len() && key_index(
                table_entries(tables.deep_view()),
                (schema@, name@),
            ) == Some(i as int),
            None => key_index(table_entries(tables.deep_view()), (schema@, name@)) is None,
        },
{
    let ghost entries = table_entries(tables.deep_view());
    let mut i: usize = 0;
    while i < tables.len()
        invariant
            i <= tables.len(),
            entries == table_entries(tables.deep_view()),
            forall|j: int| 0 <= j < i ==> (#[trigger] entries[j]).0 != (schema@, name@),
        decreases tables.len() - i,
    {
        let own = schema_name(&tables[i].ident.schema);
        assert(entries[i as int].0 == table_key(tables[i as int]@));
        if own == *schema && tables[i].ident.name == *name {
            proof {
                lemma_key_index_some(entries, (schema@, name@), i as int);
            }
            return Some(i);
        }
        i += 1;
    }
    proof {
        lemma_key_index_none(entries, (schema@, name@));
    }
    None
}

/// The position of the first column of the given name.
pub fn find_column(table: &TableBlock, name: &String) -> (r: Option<usize>)
    ensures
        match r {
            Some(i) => i < table.cols.len() && key_index(column_entries(table@), name@) == Some(
                i as int,
            ),
            None => key_index(column_entries(table@), name@) is None,
        },
{
    let ghost entries = column_entries(table@);
    let mut i: usize = 0;
    while i < table.cols.len()
        invariant
            i <= table.cols.len(),
            entries == column_entries(table@),
            forall|j: int| 0 <= j < i ==> (#[trigger] entries[j]).0 != name@,
        decreases table.cols.len() - i,
    {
        assert(entries[i as int].0 == table.cols[i as int]@.name);
        if table.cols[i].name == *name {
            proof {
                lemma_key_index_some(entries, name@, i as int);
            }
            return Some(i);
        }
        i += 1;
    }
    proof {
        lemma_key_index_none(entries, name@);
    }
    None
}

/// The type of a column, found by schema, table and column name.
pub fn find_column_type<'a>(
    tables: &'a Vec<TableBlock>,
    schema: &Option<String>,
    table: &String,
    column: &String,
) -> (r: Result<&'a ColumnType, AnalysisError>)
    ensures
        match r {
            Ok(t) => column_type_of(tables.deep_view(), schema.deep_view(), table@, column@) == Ok::<
                ColumnTypeView,
                AnalysisError,
            >(t@),
            Err(e) => column_type_of(tables.deep_view(), schema.deep_view(), table@, column@)
                == Err::<ColumnTypeView, AnalysisError>(e),
        },
{
    let key = schema_name(schema);
    match find_table(tables, &key, table) {
        None => Err(AnalysisError::TableNotFound),
        Some(i) => {
            assert(tables.deep_view()[i as int] == tables[i as int]@);
            match find_column(&tables[i], column) {
                None => Err(AnalysisError::ColumnNotFound),
                Some(j) => {
                    assert(tables[i as int]@.cols[j as int] == tables[i as int].cols[j as int]@);
                    Ok(&tables[i].cols[j].col_type)
                },
            }
        },
    }
}

/// Whether the arguments fit the kind.
pub fn check_type_args(kind: &ColumnType, args: &Vec<Value>) -> (r: bool)
    ensures
        r == args_fit(kind@, args.deep_view()),
{
    if args.len() == 0 {
        return true;
    }
    let mut i: usize = 0;
    while i < args.len()
        invariant
            i <= args.len(),
            forall|j: int| 0 <= j < i ==> (#[trigger] args.deep_view()[j]) is Integer,
        decreases args.len() - i,
    {
        match &args[i] {
            Value::Integer(_) => {},
            _ => {
                assert(!(args.deep_view()[i as int] is Integer));
                return false;
            },
        }
        i += 1;
    }
    match kind {
        ColumnType::Char | ColumnType::VarChar => args.len() == 1,
        ColumnType::Decimal => args.len() == 2,
        _ => false,
    }
}

impl TableColumn {
    /// The type that the column's raw token resolves to.
    pub fn resolve_type(&self, indexer: &Indexer) -> (r: Result<ColumnType, AnalysisError>)
        ensures
            match r {
                Ok(t) => resolve_column_type(self@, indexer@) == Ok::<
                    ColumnTypeView,
                    AnalysisError,
                >(t@),
                Err(e) => resolve_column_type(self@, indexer@) == Err::<
                    ColumnTypeView,
                    AnalysisError,
                >(e),
            },
    {
        match &self.col_type {
            ColumnType::Raw(token) => match ColumnType::match_type(token.as_str()) {
                Some(kind) => {
                    if check_type_args(&kind, &self.args) {
                        Ok(kind)
                    } else {
                        Err(AnalysisError::InvalidTypeArguments)
                    }
                },
                None => {
                    let none: Vec<String> = Vec::new();
                    assert(none.deep_view() =~= Seq::empty());
                    let absent: Option<String> = None;
                    match indexer.lookup_enum_values(&absent, token, &none) {
                        Ok(()) => Ok(ColumnType::Enum(token.clone())),
                        Err(_) => Err(AnalysisError::UnresolvedType),
                    }
                },
            },
            _ => Err(AnalysisError::UnresolvedType),
        }
    }
}

impl TableBlock {
    /// Checks the shape of the primary key: at most one column, neither
    /// nullable nor an array.
    pub fn validate_primary_key(&self) -> (r: Result<(), AnalysisError>)
        ensures
            r == primary_key_check(self@),
    {
        let ghost results = Seq::new(
            self@.cols.len(),
            |i: int| primary_key_result(self@.cols, i),
        );
        assert(results.skip(0) =~= results);
        let mut seen = false;
        let mut i: usize = 0;
        while i < self.cols.len()
            invariant
                i <= self.cols.len(),
                results == Seq::new(self@.cols.len(), |i: int| primary_key_result(self@.cols, i)),
                first_failure(results) == first_failure(results.skip(i as int)),
                seen == exists|j: int| 0 <= j < i && (#[trigger] self@.cols[j]).settings.is_pk,
            decreases self.cols.len() - i,
        {
            let settings = &self.cols[i].settings;
            assert(self@.cols[i as int] == self.cols[i as int]@);
            if settings.is_pk {
                if settings.is_nullable {
                    proof {
                        lemma_first_failure_hit(results, i as int);
                    }
                    return Err(AnalysisError::NullablePrimaryKey);
                }
                if settings.is_array {
                    proof {
                        lemma_first_failure_hit(results, i as int);
                    }
                    return Err(AnalysisError::ArrayPrimaryKey);
                }
                if seen {
                    proof {
                        lemma_first_failure_hit(results, i as int);
                    }
                    return Err(AnalysisError::DuplicatePrimaryKey);
                }
                seen = true;
            }
            proof {
                lemma_first_failure_step(results, i as int);
            }
            i += 1;
        }
        Ok(())
    }

    /// The table with the type of each column resolved.
    pub fn resolve(&self, indexer: &Indexer) -> (r: Result<TableBlock, AnalysisError>)
        ensures
            match r {
                Ok(t) => resolve_table_spec(self@, indexer@) == Ok::<TableBlockView, AnalysisError>(
                    t@,
                ),
                Err(e) => resolve_table_spec(self@, indexer@) == Err::<
                    TableBlockView,
                    AnalysisError,
                >(e),
            },
    {
        match self.validate_primary_key() {
            Err(e) => {
                return Err(e);
            },
            Ok(()) => {},
        }
        let ghost results = column_results(self@, indexer@);
        assert(results.skip(0) =~= results);
        let mut cols: Vec<TableColumn> = Vec::new();
        let mut i: usize = 0;
        while i < self.cols.len()
            invariant
                i <= self.cols.len(),
                cols.len() == i,
                results == column_results(self@, indexer@),
                primary_key_check(self@) is Ok,
                first_failure(results) == first_failure(results.skip(i as int)),
                forall|j: int|
                    0 <= j < i ==> (#[trigger] cols[j])@ == resolved_column(
                        self@.cols[j],
                        indexer@,
                    ),
            decreases self.cols.len() - i,
        {
            assert(self@.cols[i as int] == self.cols[i as int]@);
            match self.cols[i].resolve_type(indexer) {
                Err(e) => {
                    proof {
                        lemma_first_failure_hit(results, i as int);
                    }
                    return Err(e);
                },
                Ok(col_type) => {
                    proof {
                        lemma_first_failure_step(results, i as int);
                    }
                    let mut column = self.cols[i].clone();
                    column.col_type = col_type;
                    cols.push(column);
                },
            }
            i += 1;
        }
        let mut out = self.clone();
        out.cols = cols;
        assert(out@.cols =~= Seq::new(
            self@.cols.len(),
            |i: int| resolved_column(self@.cols[i], indexer@),
        ));
        Ok(out)
    }
}

/// The tables with every column type resolved.
pub fn resolve_tables(tables: &Vec<TableBlock>, indexer: &Indexer) -> (r: Result<
    Vec<TableBlock>,
    AnalysisError,
>)
    ensures
        match r {
            Ok(t) => resolve_tables_spec(tables.deep_view(), indexer@) == Ok::<
                Seq<TableBlockView>,
                AnalysisError,
            >(t.deep_view()),
            Err(e) => resolve_tables_spec(tables.deep_view(), indexer@) == Err::<
                Seq<TableBlockView>,
                AnalysisError,
            >(e),
        },
{
    let ghost results = table_results(tables.deep_view(), indexer@);
    assert(results.skip(0) =~= results);
    let mut out: Vec<TableBlock> = Vec::new();
    let mut i: usize = 0;
    while i < tables.len()
        invariant
            i <= tables.len(),
            out.len() == i,
            results == table_results(tables.deep_view(), indexer@),
            first_failure(results) == first_failure(results.skip(i as int)),
            forall|j: int|
                0 <= j < i ==> resolve_table_spec(tables.deep_view()[j], indexer@) == Ok::<
                    TableBlockView,
                    AnalysisError,
                >((#[trigger] out[j])@),
        decreases tables.len() - i,
    {
        assert(tables.deep_view()[i as int] == tables[i as int]@);
        match tables[i].resolve(indexer) {
            Err(e) => {
                proof {
                    lemma_first_failure_hit(results, i as int);
                }
                return Err(e);
            },
            Ok(table) => {
                proof {
                    lemma_first_failure_step(results, i as int);
                }
                out.push(table);
            },
        }
        i += 1;
    }
    assert(out.deep_view() =~= Seq::new(
        tables.deep_view().len(),
        |i: int| resolve_table_spec(tables.deep_view()[i], indexer@).unwrap(),
    ));
    Ok(out)
}

} // verus!
