//! The module of one table: its model, its relations and what links them.

use crate::analyzer::err::AnalysisError;
use crate::ast::indexes::{IndexesField, IndexesFieldView};
use crate::ast::table::{TableBlock, TableBlockView, TableColumn, TableColumnView, Value, ValueView};
use crate::generator::{Block, BlockView};
use crate::text::{contains_string, join, joined, push_text};
use crate::transpiler::traits::{column_col_type, column_rust_type, ToColType, ToRustType};
use vstd::prelude::*;
use vstd::string::StringExecFns;

verus! {

/// What an index is for.
#[derive(Debug, PartialEq, Eq, Clone, Copy, Structural)]
pub enum IndexKind {
    /// The index is the primary key.
    PrimaryKey,
    /// The index asks for unique values.
    Unique,
    /// The index only speeds up lookups.
    Plain,
}

/// What an index is for: a primary key first of all, else a unique index if
/// it is marked so, else a plain one.
pub open spec fn index_kind(field: IndexesFieldView) -> IndexKind {
    match field.settings {
        Some(settings) => if settings.is_pk {
            IndexKind::PrimaryKey
        } else if settings.is_unique {
            IndexKind::Unique
        } else {
            IndexKind::Plain
        },
        None => IndexKind::Plain,
    }
}

/// Whether some index of the table that is of the given kind covers the
/// column.
pub open spec fn in_index(table: TableBlockView, column: Seq<char>, kind: IndexKind) -> bool {
    table.indexes matches Some(block) && exists|i: int|
        0 <= i < block.fields.len() && index_kind(#[trigger] block.fields[i]) == kind
            && block.fields[i].ids.contains(column)
}

/// What an index is for.
pub fn kind_of_index(field: &IndexesField) -> (r: IndexKind)
    ensures
        r == index_kind(field@),
{
    match &field.settings {
        Some(settings) => if settings.is_pk {
            IndexKind::PrimaryKey
        } else if settings.is_unique {
            IndexKind::Unique
        } else {
            IndexKind::Plain
        },
        None => IndexKind::Plain,
    }
}

/// Whether some index of the table that is of the given kind covers the
/// column.
pub fn is_in_index(table: &TableBlock, column: &String, kind: IndexKind) -> (r: bool)
    ensures
        r == in_index(table@, column@, kind),
{
    match &table.indexes {
        None => false,
        Some(block) => {
            let mut i: usize = 0;
            while i < block.fields.len()
                invariant
                    i <= block.fields.len(),
                    table@.indexes == Some(block@),
                    forall|j: int|
                        0 <= j < i ==> !(index_kind(#[trigger] block@.fields[j]) == kind
                            && block@.fields[j].ids.contains(column@)),
                decreases block.fields.len() - i,
            {
                assert(block@.fields[i as int] == block.fields[i as int]@);
                if kind_of_index(&block.fields[i]) == kind && contains_string(
                    &block.fields[i].ids,
                    column,
                ) {
                    return true;
                }
                i += 1;
            }
            false
        },
    }
}

/// A default value as it stands in an attribute: text in quotes, anything
/// else as it is.
pub open spec fn default_text(value: ValueView) -> Seq<char> {
    match value {
        ValueView::String(s) => "\""@ + s + "\""@,
        _ => value.text(),
    }
}

/// The attributes of a column, in this order: its column type; whether it is
/// the primary key, by its own mark or by an index, and if by its own mark,
/// whether it does not count up by itself; whether it is nullable, indexed,
/// unique; its default value.
pub open spec fn column_attributes(table: TableBlockView, column: TableColumnView) -> Seq<
    Seq<char>,
> {
    let settings = column.settings;
    let a = Seq::<Seq<char>>::empty();
    let a = match column_col_type(column) {
        Some(t) => a.push("column_type = \""@ + t + "\""@),
        None => a,
    };
    let a = if settings.is_pk {
        let b = a.push("primary_key"@);
        if !settings.is_incremental {
            b.push("auto_increment = false"@)
        } else {
            b
        }
    } else if in_index(table, column.name, IndexKind::PrimaryKey) {
        a.push("primary_key"@)
    } else {
        a
    };
    let a = if settings.is_nullable {
        a.push("nullable"@)
    } else {
        a
    };
    let a = if in_index(table, column.name, IndexKind::Plain) {
        a.push("indexed"@)
    } else {
        a
    };
    let a = if settings.is_unique || in_index(table, column.name, IndexKind::Unique) {
        a.push("unique"@)
    } else {
        a
    };
    match settings.default {
        Some(value) => a.push("default_value = "@ + default_text(value)),
        None => a,
    }
}

/// A list of attributes as one attribute line.
pub open spec fn attribute_line(attributes: Seq<Seq<char>>) -> Seq<char> {
    "#[sea_orm("@ + joined(attributes, ", "@) + ")]"@
}

/// The type of a field: the Rust type of the column, optional if the column
/// is nullable. None for a column whose type is unresolved.
pub open spec fn field_type(column: TableColumnView) -> Option<Seq<char>> {
    match column_rust_type(column) {
        Some(t) => Some(
            if column.settings.is_nullable {
                "Option<"@ + t + ">"@
            } else {
                t
            },
        ),
        None => None,
    }
}

/// The model with the field of one more column: its attribute line, if it
/// has attributes, and the field itself.
pub open spec fn with_field(
    model: BlockView,
    table: TableBlockView,
    column: TableColumnView,
) -> Result<BlockView, AnalysisError> {
    match field_type(column) {
        None => Err(AnalysisError::UnresolvedType),
        Some(t) => {
            let attributes = column_attributes(table, column);
            Ok(
                model.with_line_if(attributes.len() > 0, attribute_line(attributes)).with_line(
                    "pub "@ + column.name + ": "@ + t + ","@,
                ),
            )
        },
    }
}

/// The model with the fields of the columns from `from` on, in order.
pub open spec fn with_fields(model: BlockView, table: TableBlockView, from: int) -> Result<
    BlockView,
    AnalysisError,
>
    decreases table.cols.len() - from,
{
    if from < 0 || from >= table.cols.len() {
        Ok(model)
    } else {
        match with_field(model, table, table.cols[from]) {
            Err(e) => Err(e),
            Ok(next) => with_fields(next, table, from + 1),
        }
    }
}

/// The model of a table: a struct with one field for each column.
pub open spec fn table_model(table: TableBlockView) -> Result<BlockView, AnalysisError> {
    with_fields(BlockView::fresh(2, Some("pub struct Model"@)), table, 0)
}

/// A default value as it stands in an attribute.
pub fn default_value_text(value: &Value) -> (r: String)
    ensures
        r@ == default_text(value@),
{
    match value {
        Value::String(s) => {
            let mut out = "\"".to_owned();
            out.append(s.as_str());
            out.append("\"");
            out
        },
        _ => value.to_string(),
    }
}

/// The attributes of a column.
pub fn attributes_of_column(table: &TableBlock, column: &TableColumn) -> (r: Vec<String>)
    ensures
        r.deep_view() == column_attributes(table@, column@),
{
    let mut out: Vec<String> = Vec::new();
    assert(out.deep_view() =~= Seq::empty());
    match column.to_col_type() {
        Some(t) => {
            let mut text = "column_type = \"".to_owned();
            text.append(t.as_str());
            text.append("\"");
            push_text(&mut out, text);
        },
        None => {},
    }
    if column.settings.is_pk {
        push_text(&mut out, "primary_key".to_owned());
        if !column.settings.is_incremental {
            push_text(&mut out, "auto_increment = false".to_owned());
        }
    } else if is_in_index(table, &column.name, IndexKind::PrimaryKey) {
        push_text(&mut out, "primary_key".to_owned());
    }
    if column.settings.is_nullable {
        push_text(&mut out, "nullable".to_owned());
    }
    if is_in_index(table, &column.name, IndexKind::Plain) {
        push_text(&mut out, "indexed".to_owned());
    }
    if column.settings.is_unique || is_in_index(table, &column.name, IndexKind::Unique) {
        push_text(&mut out, "unique".to_owned());
    }
    match &column.settings.default {
        Some(value) => {
            let mut text = "default_value = ".to_owned();
            text.append(default_value_text(value).as_str());
            push_text(&mut out, text);
        },
        None => {},
    }
    out
}

/// A list of attributes as one attribute line.
pub fn sea_orm_attribute(attributes: &Vec<String>) -> (r: String)
    ensures
        r@ == attribute_line(attributes.deep_view()),
{
    let mut out = "#[sea_orm(".to_owned();
    out.append(join(attributes, ", ").as_str());
    out.append(")]");
    out
}

/// Adds the field of a column to the model of its table.
pub fn add_field(model: Block, table: &TableBlock, column: &TableColumn) -> (r: Result<
    Block,
    AnalysisError,
>)
    ensures
        match r {
            Ok(b) => with_field(model@, table@, column@) == Ok::<BlockView, AnalysisError>(b@),
            Err(e) => with_field(model@, table@, column@) == Err::<BlockView, AnalysisError>(e),
        },
{
    let rust_type = match column.to_rust_type() {
        None => {
            return Err(AnalysisError::UnresolvedType);
        },
        Some(t) => t,
    };
    let field_string = if column.settings.is_nullable {
        let mut out = "Option<".to_owned();
        out.append(rust_type.as_str());
        out.append(">");
        out
    } else {
        rust_type
    };
    let attributes = attributes_of_column(table, column);
    let mut field = "pub ".to_owned();
    field.append(column.name.as_str());
    field.append(": ");
    field.append(field_string.as_str());
    field.append(",");
    Ok(
        model.line_cond(attributes.len() > 0, sea_orm_attribute(&attributes).as_str()).line(
            field.as_str(),
        ),
    )
}

/// The model of a table: a struct with one field for each column.
pub fn model_of_table(table: &TableBlock) -> (r: Result<Block, AnalysisError>)
    ensures
        match r {
            Ok(b) => table_model(table@) == Ok::<BlockView, AnalysisError>(b@),
            Err(e) => table_model(table@) == Err::<BlockView, AnalysisError>(e),
        },
{
    let mut model = Block::new(2, Some("pub struct Model"));
    let mut i: usize = 0;
    while i < table.cols.len()
        invariant
            i <= table.cols.len(),
            table_model(table@) == with_fields(model@, table@, i as int),
        decreases table.cols.len() - i,
    {
        assert(table@.cols[i as int] == table.cols[i as int]@);
        model = match add_field(model, table, &table.cols[i]) {
            Err(e) => {
                return Err(e);
            },
            Ok(next) => next,
        };
        i += 1;
    }
    Ok(model)
}

} // verus!
