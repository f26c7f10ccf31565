//! Tables, columns and indexes in a parse tree.

use crate::ast::indexes::{
    IndexesBlock, IndexesBlockView, IndexesField, IndexesFieldView, IndexesSettings,
    IndexesSettingsView,
};
use crate::ast::table::{
    ColumnSettings, ColumnSettingsView, ColumnType, ColumnTypeView, TableBlock, TableBlockView,
    TableColumn, TableColumnView, TableIdent, TableIdentView, Value, ValueView,
};
use crate::parser::refs::{parse_ref_stmt_inline, ref_stmt};
use crate::parser::value::{
    decl_ident, note_decl, note_inline, parse_decl_ident, parse_note_decl, parse_note_inline,
    parse_string_value, parse_value, string_value, value_of,
};
use crate::parser::{Pair, ParseError, Rule};
use crate::text::{push_item, push_text, str_eq};
use vstd::prelude::*;

verus! {

/// The arguments of a type after the children from `from` on: one for each
/// value.
pub open spec fn args_from(out: Seq<ValueView>, children: Seq<Pair>, from: int) -> Result<
    Seq<ValueView>,
    ParseError,
>
    decreases children.len() - from,
{
    if from < 0 || from >= children.len() {
        Ok(out)
    } else if children[from].rule == Rule::Value {
        match value_of(children[from]) {
            Err(e) => Err(e),
            Ok(v) => args_from(out.push(v), children, from + 1),
        }
    } else {
        Err(ParseError::UnexpectedRule)
    }
}

/// The arguments of a type.
pub open spec fn col_type_arg(pair: Pair) -> Result<Seq<ValueView>, ParseError> {
    args_from(Seq::empty(), pair.inner@, 0)
}

/// Reads the arguments of a type.
pub fn parse_col_type_arg(pair: &Pair) -> (r: Result<Vec<Value>, ParseError>)
    ensures
        match r {
            Ok(v) => col_type_arg(*pair) == Ok::<Seq<ValueView>, ParseError>(v.deep_view()),
            Err(e) => col_type_arg(*pair) == Err::<Seq<ValueView>, ParseError>(e),
        },
{
    let mut out: Vec<Value> = Vec::new();
    assert(out.deep_view() =~= Seq::empty());
    let mut i: usize = 0;
    while i < pair.inner.len()
        invariant
            i <= pair.inner.len(),
            col_type_arg(*pair) == args_from(out.deep_view(), pair.inner@, i as int),
        decreases pair.inner.len() - i,
    {
        let child = &pair.inner[i];
        match child.rule {
            Rule::Value => {
                let value = match parse_value(child) {
                    Err(e) => {
                        return Err(e);
                    },
                    Ok(v) => v,
                };
                push_item(&mut out, value);
            },
            _ => {
                return Err(ParseError::UnexpectedRule);
            },
        }
        i += 1;
    }
    Ok(out)
}

/// The type of a column as it is written: its token, its arguments, and
/// whether it is an array.
pub struct ColTypeParts {
    pub col_type: ColumnTypeView,
    pub args: Seq<ValueView>,
    pub is_array: bool,
}

/// The written type after one more child of its body: the token or the
/// arguments.
pub open spec fn type_body_step(out: ColTypeParts, child: Pair) -> Result<
    ColTypeParts,
    ParseError,
> {
    match child.rule {
        Rule::Var => Ok(ColTypeParts { col_type: ColumnTypeView::Raw(child.text@), ..out }),
        Rule::ColTypeArg => match col_type_arg(child) {
            Err(e) => Err(e),
            Ok(args) => Ok(ColTypeParts { args, ..out }),
        },
        _ => Err(ParseError::UnexpectedRule),
    }
}

/// The written type after the children of its body from `from` on.
pub open spec fn type_body_from(out: ColTypeParts, children: Seq<Pair>, from: int) -> Result<
    ColTypeParts,
    ParseError,
>
    decreases children.len() - from,
{
    if from < 0 || from >= children.len() {
        Ok(out)
    } else {
        match type_body_step(out, children[from]) {
            Err(e) => Err(e),
            Ok(next) => type_body_from(next, children, from + 1),
        }
    }
}

/// The written type after the children from `from` on: each is a single
/// type or an array type.
pub open spec fn type_from(out: ColTypeParts, children: Seq<Pair>, from: int) -> Result<
    ColTypeParts,
    ParseError,
>
    decreases children.len() - from,
{
    if from < 0 || from >= children.len() {
        Ok(out)
    } else if children[from].rule == Rule::ColTypeSingle || children[from].rule
        == Rule::ColTypeArray {
        match type_body_from(
            ColTypeParts { is_array: children[from].rule == Rule::ColTypeArray, ..out },
            children[from].inner@,
            0,
        ) {
            Err(e) => Err(e),
            Ok(next) => type_from(next, children, from + 1),
        }
    } else {
        Err(ParseError::UnexpectedRule)
    }
}

/// The type of a column as it is written.
pub open spec fn col_type(pair: Pair) -> Result<ColTypeParts, ParseError> {
    type_from(
        ColTypeParts { col_type: ColumnTypeView::Undef, args: Seq::empty(), is_array: false },
        pair.inner@,
        0,
    )
}

/// Reads the body of a written type: the token and the arguments.
fn parse_type_body(
    kind: ColumnType,
    args: Vec<Value>,
    is_array: bool,
    children: &Vec<Pair>,
) -> (r: Result<(ColumnType, Vec<Value>), ParseError>)
    ensures
        match r {
            Ok(t) => type_body_from(
                ColTypeParts { col_type: kind@, args: args.deep_view(), is_array },
                children@,
                0,
            ) == Ok::<ColTypeParts, ParseError>(
                ColTypeParts { col_type: t.0@, args: t.1.deep_view(), is_array },
            ),
            Err(e) => type_body_from(
                ColTypeParts { col_type: kind@, args: args.deep_view(), is_array },
                children@,
                0,
            ) == Err::<ColTypeParts, ParseError>(e),
        },
{
    let mut found_kind = kind;
    let mut found_args = args;
    let mut j: usize = 0;
    while j < children.len()
        invariant
            j <= children.len(),
            type_body_from(
                ColTypeParts { col_type: kind@, args: args.deep_view(), is_array },
                children@,
                0,
            ) == type_body_from(
                ColTypeParts { col_type: found_kind@, args: found_args.deep_view(), is_array },
                children@,
                j as int,
            ),
        decreases children.len() - j,
    {
        let part = &children[j];
        match part.rule {
            Rule::Var => {
                found_kind = ColumnType::Raw(part.text.clone());
            },
            Rule::ColTypeArg => {
                found_args = match parse_col_type_arg(part) {
                    Err(e) => {
                        return Err(e);
                    },
                    Ok(a) => a,
                };
            },
            _ => {
                return Err(ParseError::UnexpectedRule);
            },
        }
        j += 1;
    }
    Ok((found_kind, found_args))
}

/// Reads the type of a column: its token, its arguments, and whether it is
/// an array.
pub fn parse_col_type(pair: &Pair) -> (r: Result<(ColumnType, Vec<Value>, bool), ParseError>)
    ensures
        match r {
            Ok(t) => col_type(*pair) == Ok::<ColTypeParts, ParseError>(
                ColTypeParts { col_type: t.0@, args: t.1.deep_view(), is_array: t.2 },
            ),
            Err(e) => col_type(*pair) == Err::<ColTypeParts, ParseError>(e),
        },
{
    let mut is_array = false;
    let mut col_args: Vec<Value> = Vec::new();
    let mut kind = ColumnType::Undef;
    assert(col_args.deep_view() =~= Seq::empty());
    let mut i: usize = 0;
    while i < pair.inner.len()
        invariant
            i <= pair.inner.len(),
            col_type(*pair) == type_from(
                ColTypeParts { col_type: kind@, args: col_args.deep_view(), is_array },
                pair.inner@,
                i as int,
            ),
        decreases pair.inner.len() - i,
    {
        let child = &pair.inner[i];
        match child.rule {
            Rule::ColTypeSingle | Rule::ColTypeArray => {
                is_array = child.rule == Rule::ColTypeArray;
                match parse_type_body(kind, col_args, is_array, &child.inner) {
                    Err(e) => {
                        return Err(e);
                    },
                    Ok((k, a)) => {
                        kind = k;
                        col_args = a;
                    },
                }
            },
            _ => {
                return Err(ParseError::UnexpectedRule);
            },
        }
        i += 1;
    }
    Ok((kind, col_args, is_array))
}

/// Settings in which nothing is set.
pub open spec fn no_settings() -> ColumnSettingsView {
    ColumnSettingsView {
        is_pk: false,
        is_unique: false,
        is_nullable: false,
        is_incremental: false,
        is_array: false,
        note: None,
        default: None,
        refs: Seq::empty(),
    }
}

/// The settings after one more part of an attribute: a default value, a
/// note or a relation.
pub open spec fn attribute_part_step(out: ColumnSettingsView, child: Pair) -> Result<
    ColumnSettingsView,
    ParseError,
> {
    match child.rule {
        Rule::ColDefault => match value_of(child) {
            Err(e) => Err(e),
            Ok(v) => Ok(ColumnSettingsView { default: Some(v), ..out }),
        },
        Rule::NoteInline => match note_inline(child) {
            Err(e) => Err(e),
            Ok(t) => Ok(ColumnSettingsView { note: Some(t), ..out }),
        },
        Rule::RefInline => match ref_stmt(child) {
            Err(e) => Err(e),
            Ok(b) => Ok(ColumnSettingsView { refs: out.refs.push(b), ..out }),
        },
        _ => Err(ParseError::UnexpectedRule),
    }
}

/// The settings after the parts of an attribute from `from` on.
pub open spec fn attribute_parts_from(
    out: ColumnSettingsView,
    children: Seq<Pair>,
    from: int,
) -> Result<ColumnSettingsView, ParseError>
    decreases children.len() - from,
{
    if from < 0 || from >= children.len() {
        Ok(out)
    } else {
        match attribute_part_step(out, children[from]) {
            Err(e) => Err(e),
            Ok(next) => attribute_parts_from(next, children, from + 1),
        }
    }
}

/// The settings after one more attribute: a mark, known by its words, or an
/// attribute with parts.
pub open spec fn col_attribute_step(out: ColumnSettingsView, child: Pair) -> Result<
    ColumnSettingsView,
    ParseError,
> {
    if child.rule != Rule::ColAttribute {
        Err(ParseError::UnexpectedRule)
    } else if child.text@ == "unique"@ {
        Ok(ColumnSettingsView { is_unique: true, ..out })
    } else if child.text@ == "primary key"@ || child.text@ == "pk"@ {
        Ok(ColumnSettingsView { is_pk: true, ..out })
    } else if child.text@ == "null"@ {
        Ok(ColumnSettingsView { is_nullable: true, ..out })
    } else if child.text@ == "not null"@ {
        Ok(out)
    } else if child.text@ == "increment"@ {
        Ok(ColumnSettingsView { is_incremental: true, ..out })
    } else {
        attribute_parts_from(out, child.inner@, 0)
    }
}

/// The settings after the attributes from `from` on.
pub open spec fn col_settings_from(out: ColumnSettingsView, children: Seq<Pair>, from: int) -> Result<
    ColumnSettingsView,
    ParseError,
>
    decreases children.len() - from,
{
    if from < 0 || from >= children.len() {
        Ok(out)
    } else {
        match col_attribute_step(out, children[from]) {
            Err(e) => Err(e),
            Ok(next) => col_settings_from(next, children, from + 1),
        }
    }
}

/// The settings of a column.
pub open spec fn col_settings(pair: Pair) -> Result<ColumnSettingsView, ParseError> {
    col_settings_from(no_settings(), pair.inner@, 0)
}

/// Settings in which nothing is set.
pub fn empty_settings() -> (r: ColumnSettings)
    ensures
        r@ == no_settings(),
{
    let refs: Vec<crate::ast::refs::RefBlock> = Vec::new();
    assert(refs.deep_view() =~= Seq::empty());
    ColumnSettings {
        is_pk: false,
        is_unique: false,
        is_nullable: false,
        is_incremental: false,
        is_array: false,
        note: None,
        default: None,
        refs,
    }
}

/// Reads the parts of an attribute of a column.
fn parse_attribute_parts(out: ColumnSettings, children: &Vec<Pair>) -> (r: Result<
    ColumnSettings,
    ParseError,
>)
    ensures
        match r {
            Ok(s) => attribute_parts_from(out@, children@, 0) == Ok::<
                ColumnSettingsView,
                ParseError,
            >(s@),
            Err(e) => attribute_parts_from(out@, children@, 0) == Err::<
                ColumnSettingsView,
                ParseError,
            >(e),
        },
{
    let mut current = out;
    let mut i: usize = 0;
    while i < children.len()
        invariant
            i <= children.len(),
            attribute_parts_from(out@, children@, 0) == attribute_parts_from(
                current@,
                children@,
                i as int,
            ),
        decreases children.len() - i,
    {
        let child = &children[i];
        match child.rule {
            Rule::ColDefault => {
                let value = match parse_value(child) {
                    Err(e) => {
                        return Err(e);
                    },
                    Ok(v) => v,
                };
                current.default = Some(value);
            },
            Rule::NoteInline => {
                let note = match parse_note_inline(child) {
                    Err(e) => {
                        return Err(e);
                    },
                    Ok(t) => t,
                };
                current.note = Some(note);
            },
            Rule::RefInline => {
                let block = match parse_ref_stmt_inline(child) {
                    Err(e) => {
                        return Err(e);
                    },
                    Ok(b) => b,
                };
                push_item(&mut current.refs, block);
            },
            _ => {
                return Err(ParseError::UnexpectedRule);
            },
        }
        i += 1;
    }
    Ok(current)
}

/// Reads the settings of a column.
pub fn parse_col_settings(pair: &Pair) -> (r: Result<ColumnSettings, ParseError>)
    ensures
        match r {
            Ok(s) => col_settings(*pair) == Ok::<ColumnSettingsView, ParseError>(s@),
            Err(e) => col_settings(*pair) == Err::<ColumnSettingsView, ParseError>(e),
        },
{
    let mut out = empty_settings();
    let mut i: usize = 0;
    while i < pair.inner.len()
        invariant
            i <= pair.inner.len(),
            col_settings(*pair) == col_settings_from(out@, pair.inner@, i as int),
        decreases pair.inner.len() - i,
    {
        let child = &pair.inner[i];
        match child.rule {
            Rule::ColAttribute => {
                let text = child.text.as_str();
                if str_eq(text, "unique") {
                    out.is_unique = true;
                } else if str_eq(text, "primary key") || str_eq(text, "pk") {
                    out.is_pk = true;
                } else if str_eq(text, "null") {
                    out.is_nullable = true;
                } else if str_eq(text, "not null") {
                } else if str_eq(text, "increment") {
                    out.is_incremental = true;
                } else {
                    out = match parse_attribute_parts(out, &child.inner) {
                        Err(e) => {
                            return Err(e);
                        },
                        Ok(s) => s,
                    };
                }
            },
            _ => {
                return Err(ParseError::UnexpectedRule);
            },
        }
        i += 1;
    }
    Ok(out)
}

/// A column of which nothing is known yet.
pub open spec fn no_column() -> TableColumnView {
    TableColumnView {
        name: Seq::empty(),
        col_type: ColumnTypeView::Undef,
        args: Seq::empty(),
        settings: no_settings(),
    }
}

/// The column after one more child: its name, its type or its settings. A
/// type says whether the column is an array; settings replace all settings.
pub open spec fn col_step(out: TableColumnView, child: Pair) -> Result<TableColumnView, ParseError> {
    match child.rule {
        Rule::Ident => Ok(TableColumnView { name: child.text@, ..out }),
        Rule::ColType => match col_type(child) {
            Err(e) => Err(e),
            Ok(t) => Ok(
                TableColumnView {
                    col_type: t.col_type,
                    args: t.args,
                    settings: ColumnSettingsView { is_array: t.is_array, ..out.settings },
                    ..out
                },
            ),
        },
        Rule::ColSettings => match col_settings(child) {
            Err(e) => Err(e),
            Ok(settings) => Ok(TableColumnView { settings, ..out }),
        },
        _ => Err(ParseError::UnexpectedRule),
    }
}

/// The column after the children from `from` on.
pub open spec fn col_from(out: TableColumnView, children: Seq<Pair>, from: int) -> Result<
    TableColumnView,
    ParseError,
>
    decreases children.len() - from,
{
    if from < 0 || from >= children.len() {
        Ok(out)
    } else {
        match col_step(out, children[from]) {
            Err(e) => Err(e),
            Ok(next) => col_from(next, children, from + 1),
        }
    }
}

/// The column that a node declares.
pub open spec fn table_col(pair: Pair) -> Result<TableColumnView, ParseError> {
    col_from(no_column(), pair.inner@, 0)
}

/// Reads a column.
pub fn parse_table_col(pair: &Pair) -> (r: Result<TableColumn, ParseError>)
    ensures
        match r {
            Ok(c) => table_col(*pair) == Ok::<TableColumnView, ParseError>(c@),
            Err(e) => table_col(*pair) == Err::<TableColumnView, ParseError>(e),
        },
{
    let args: Vec<Value> = Vec::new();
    assert(args.deep_view() =~= Seq::empty());
    let mut out = TableColumn {
        name: String::new(),
        col_type: ColumnType::Undef,
        args,
        settings: empty_settings(),
    };
    let mut i: usize = 0;
    while i < pair.inner.len()
        invariant
            i <= pair.inner.len(),
            table_col(*pair) == col_from(out@, pair.inner@, i as int),
        decreases pair.inner.len() - i,
    {
        let child = &pair.inner[i];
        match child.rule {
            Rule::Ident => {
                out.name = child.text.clone();
            },
            Rule::ColType => {
                let (kind, args, is_array) = match parse_col_type(child) {
                    Err(e) => {
                        return Err(e);
                    },
                    Ok(t) => t,
                };
                out.settings.is_array = is_array;
                out.args = args;
                out.col_type = kind;
            },
            Rule::ColSettings => {
                out.settings = match parse_col_settings(child) {
                    Err(e) => {
                        return Err(e);
                    },
                    Ok(s) => s,
                };
            },
            _ => {
                return Err(ParseError::UnexpectedRule);
            },
        }
        i += 1;
    }
    Ok(out)
}

/// What an index is made on: the first name among the children from `from`
/// on, or the first expression in backquotes; empty backquotes are passed
/// over.
pub open spec fn indexes_ident_from(children: Seq<Pair>, from: int) -> Result<
    Seq<char>,
    ParseError,
>
    decreases children.len() - from,
{
    if from < 0 || from >= children.len() {
        Err(ParseError::MissingPart)
    } else if children[from].rule == Rule::Ident {
        Ok(children[from].text@)
    } else if children[from].rule == Rule::BackquotedQuotedString {
        let body = children[from].inner@;
        if body.len() == 0 {
            indexes_ident_from(children, from + 1)
        } else if body[0].rule == Rule::BackquotedQuotedValue {
            Ok(body[0].text@)
        } else {
            Err(ParseError::UnexpectedRule)
        }
    } else {
        Err(ParseError::UnexpectedRule)
    }
}

/// What an index is made on.
pub open spec fn indexes_ident(pair: Pair) -> Result<Seq<char>, ParseError> {
    indexes_ident_from(pair.inner@, 0)
}

/// Reads what an index is made on.
pub fn parse_indexes_ident(pair: &Pair) -> (r: Result<String, ParseError>)
    ensures
        match r {
            Ok(t) => indexes_ident(*pair) == Ok::<Seq<char>, ParseError>(t@),
            Err(e) => indexes_ident(*pair) == Err::<Seq<char>, ParseError>(e),
        },
{
    let mut i: usize = 0;
    while i < pair.inner.len()
        invariant
            i <= pair.inner.len(),
            indexes_ident(*pair) == indexes_ident_from(pair.inner@, i as int),
        decreases pair.inner.len() - i,
    {
        let child = &pair.inner[i];
        match child.rule {
            Rule::Ident => {
                return Ok(child.text.clone());
            },
            Rule::BackquotedQuotedString => {
                if child.inner.len() > 0 {
                    match child.inner[0].rule {
                        Rule::BackquotedQuotedValue => {
                            return Ok(child.inner[0].text.clone());
                        },
                        _ => {
                            return Err(ParseError::UnexpectedRule);
                        },
                    }
                }
            },
            _ => {
                return Err(ParseError::UnexpectedRule);
            },
        }
        i += 1;
    }
    Err(ParseError::MissingPart)
}

/// The name of an index after the children from `from` on: the text of the
/// last string value.
pub open spec fn index_name_from(out: Option<Seq<char>>, children: Seq<Pair>, from: int) -> Result<
    Option<Seq<char>>,
    ParseError,
>
    decreases children.len() - from,
{
    if from < 0 || from >= children.len() {
        Ok(out)
    } else {
        match string_value(children[from]) {
            Err(e) => Err(e),
            Ok(t) => index_name_from(Some(t), children, from + 1),
        }
    }
}

/// The text of the last child, if there is a child.
pub open spec fn last_child_text(children: Seq<Pair>) -> Option<Seq<char>> {
    if children.len() == 0 {
        None
    } else {
        Some(children.last().text@)
    }
}

/// The settings of an index after one more part of an attribute: a mark,
/// known by its word, the type, the name, or a note, which is read and left
/// out.
pub open spec fn index_part_step(out: IndexesSettingsView, child: Pair) -> Result<
    IndexesSettingsView,
    ParseError,
> {
    if child.text@ == "unique"@ {
        Ok(IndexesSettingsView { is_unique: true, ..out })
    } else if child.text@ == "pk"@ {
        Ok(IndexesSettingsView { is_pk: true, ..out })
    } else {
        match child.rule {
            Rule::IndexesType => Ok(
                IndexesSettingsView { index_type: last_child_text(child.inner@), ..out },
            ),
            Rule::IndexesName => match index_name_from(None, child.inner@, 0) {
                Err(e) => Err(e),
                Ok(name) => Ok(IndexesSettingsView { name, ..out }),
            },
            Rule::NoteInline => match note_inline(child) {
                Err(e) => Err(e),
                Ok(_) => Ok(out),
            },
            _ => Err(ParseError::UnexpectedRule),
        }
    }
}

/// The settings of an index after the parts of an attribute from `from` on.
pub open spec fn index_parts_from(
    out: IndexesSettingsView,
    children: Seq<Pair>,
    from: int,
) -> Result<IndexesSettingsView, ParseError>
    decreases children.len() - from,
{
    if from < 0 || from >= children.len() {
        Ok(out)
    } else {
        match index_part_step(out, children[from]) {
            Err(e) => Err(e),
            Ok(next) => index_parts_from(next, children, from + 1),
        }
    }
}

/// The settings of an index after the attributes from `from` on.
pub open spec fn index_settings_from(
    out: IndexesSettingsView,
    children: Seq<Pair>,
    from: int,
) -> Result<IndexesSettingsView, ParseError>
    decreases children.len() - from,
{
    if from < 0 || from >= children.len() {
        Ok(out)
    } else if children[from].rule == Rule::IndexesAttribute {
        match index_parts_from(out, children[from].inner@, 0) {
            Err(e) => Err(e),
            Ok(next) => index_settings_from(next, children, from + 1),
        }
    } else {
        Err(ParseError::UnexpectedRule)
    }
}

/// Settings of an index in which nothing is set.
pub open spec fn no_index_settings() -> IndexesSettingsView {
    IndexesSettingsView { index_type: None, name: None, is_unique: false, is_pk: false }
}

/// The settings of an index.
pub open spec fn indexes_settings(pair: Pair) -> Result<IndexesSettingsView, ParseError> {
    index_settings_from(no_index_settings(), pair.inner@, 0)
}

/// Reads the name of an index.
fn parse_index_name(children: &Vec<Pair>) -> (r: Result<Option<String>, ParseError>)
    ensures
        match r {
            Ok(n) => index_name_from(None, children@, 0) == Ok::<Option<Seq<char>>, ParseError>(
                n.deep_view(),
            ),
            Err(e) => index_name_from(None, children@, 0) == Err::<
                Option<Seq<char>>,
                ParseError,
            >(e),
        },
{
    let mut out: Option<String> = None;
    let mut i: usize = 0;
    while i < children.len()
        invariant
            i <= children.len(),
            index_name_from(None, children@, 0) == index_name_from(
                out.deep_view(),
                children@,
                i as int,
            ),
        decreases children.len() - i,
    {
        out = match parse_string_value(&children[i]) {
            Err(e) => {
                return Err(e);
            },
            Ok(t) => Some(t),
        };
        i += 1;
    }
    Ok(out)
}

/// Reads the parts of an attribute of an index.
fn parse_index_parts(out: IndexesSettings, children: &Vec<Pair>) -> (r: Result<
    IndexesSettings,
    ParseError,
>)
    ensures
        match r {
            Ok(s) => index_parts_from(out@, children@, 0) == Ok::<IndexesSettingsView, ParseError>(
                s@,
            ),
            Err(e) => index_parts_from(out@, children@, 0) == Err::<
                IndexesSettingsView,
                ParseError,
            >(e),
        },
{
    let mut current = out;
    let mut i: usize = 0;
    while i < children.len()
        invariant
            i <= children.len(),
            index_parts_from(out@, children@, 0) == index_parts_from(
                current@,
                children@,
                i as int,
            ),
        decreases children.len() - i,
    {
        let child = &children[i];
        if str_eq(child.text.as_str(), "unique") {
            current.is_unique = true;
        } else if str_eq(child.text.as_str(), "pk") {
            current.is_pk = true;
        } else {
            match child.rule {
                Rule::IndexesType => {
                    current.index_type = if child.inner.len() == 0 {
                        None
                    } else {
                        Some(child.inner[child.inner.len() - 1].text.clone())
                    };
                },
                Rule::IndexesName => {
                    current.name = match parse_index_name(&child.inner) {
                        Err(e) => {
                            return Err(e);
                        },
                        Ok(n) => n,
                    };
                },
                Rule::NoteInline => {
                    match parse_note_inline(child) {
                        Err(e) => {
                            return Err(e);
                        },
                        Ok(_) => {},
                    }
                },
                _ => {
                    return Err(ParseError::UnexpectedRule);
                },
            }
        }
        i += 1;
    }
    Ok(current)
}

/// Reads the settings of an index.
pub fn parse_indexes_settings(pair: &Pair) -> (r: Result<IndexesSettings, ParseError>)
    ensures
        match r {
            Ok(s) => indexes_settings(*pair) == Ok::<IndexesSettingsView, ParseError>(s@),
            Err(e) => indexes_settings(*pair) == Err::<IndexesSettingsView, ParseError>(e),
        },
{
    let mut out = IndexesSettings { index_type: None, name: None, is_unique: false, is_pk: false };
    let mut i: usize = 0;
    while i < pair.inner.len()
        invariant
            i <= pair.inner.len(),
            indexes_settings(*pair) == index_settings_from(out@, pair.inner@, i as int),
        decreases pair.inner.len() - i,
    {
        let child = &pair.inner[i];
        match child.rule {
            Rule::IndexesAttribute => {
                out = match parse_index_parts(out, &child.inner) {
                    Err(e) => {
                        return Err(e);
                    },
                    Ok(s) => s,
                };
            },
            _ => {
                return Err(ParseError::UnexpectedRule);
            },
        }
        i += 1;
    }
    Ok(out)
}

/// An index after one more child: something that it is made on, or its
/// settings.
pub open spec fn index_field_step(out: IndexesFieldView, child: Pair) -> Result<
    IndexesFieldView,
    ParseError,
> {
    match child.rule {
        Rule::IndexesIdent => match indexes_ident(child) {
            Err(e) => Err(e),
            Ok(id) => Ok(IndexesFieldView { ids: out.ids.push(id), ..out }),
        },
        Rule::IndexesSettings => match indexes_settings(child) {
            Err(e) => Err(e),
            Ok(settings) => Ok(IndexesFieldView { settings: Some(settings), ..out }),
        },
        _ => Err(ParseError::UnexpectedRule),
    }
}

/// An index after the children from `from` on.
pub open spec fn index_field_from(out: IndexesFieldView, children: Seq<Pair>, from: int) -> Result<
    IndexesFieldView,
    ParseError,
>
    decreases children.len() - from,
{
    if from < 0 || from >= children.len() {
        Ok(out)
    } else {
        match index_field_step(out, children[from]) {
            Err(e) => Err(e),
            Ok(next) => index_field_from(next, children, from + 1),
        }
    }
}

/// The index that a node declares, on one column or on several.
pub open spec fn indexes_single_multi(pair: Pair) -> Result<IndexesFieldView, ParseError> {
    index_field_from(IndexesFieldView { ids: Seq::empty(), settings: None }, pair.inner@, 0)
}

/// The indexes after the children from `from` on: one for each.
pub open spec fn index_fields_from(
    out: Seq<IndexesFieldView>,
    children: Seq<Pair>,
    from: int,
) -> Result<Seq<IndexesFieldView>, ParseError>
    decreases children.len() - from,
{
    if from < 0 || from >= children.len() {
        Ok(out)
    } else if children[from].rule == Rule::IndexesSingle || children[from].rule
        == Rule::IndexesMulti {
        match indexes_single_multi(children[from]) {
            Err(e) => Err(e),
            Ok(field) => index_fields_from(out.push(field), children, from + 1),
        }
    } else {
        Err(ParseError::UnexpectedRule)
    }
}

/// The indexes that the body of an index declaration declares.
pub open spec fn indexes_block(pair: Pair) -> Result<IndexesBlockView, ParseError> {
    match index_fields_from(Seq::empty(), pair.inner@, 0) {
        Err(e) => Err(e),
        Ok(fields) => Ok(IndexesBlockView { fields }),
    }
}

/// The indexes that a declaration declares: those of its body, which must
/// come first.
pub open spec fn indexes_decl(pair: Pair) -> Result<IndexesBlockView, ParseError> {
    if pair.inner@.len() == 0 {
        Err(ParseError::MissingPart)
    } else if pair.inner@[0].rule == Rule::IndexesBlock {
        indexes_block(pair.inner@[0])
    } else {
        Err(ParseError::UnexpectedRule)
    }
}

/// Reads an index.
pub fn parse_indexes_single_multi(pair: &Pair) -> (r: Result<IndexesField, ParseError>)
    ensures
        match r {
            Ok(f) => indexes_single_multi(*pair) == Ok::<IndexesFieldView, ParseError>(f@),
            Err(e) => indexes_single_multi(*pair) == Err::<IndexesFieldView, ParseError>(e),
        },
{
    let ids: Vec<String> = Vec::new();
    assert(ids.deep_view() =~= Seq::empty());
    let mut out = IndexesField { ids, settings: None };
    let mut i: usize = 0;
    while i < pair.inner.len()
        invariant
            i <= pair.inner.len(),
            indexes_single_multi(*pair) == index_field_from(out@, pair.inner@, i as int),
        decreases pair.inner.len() - i,
    {
        let child = &pair.inner[i];
        match child.rule {
            Rule::IndexesIdent => {
                let id = match parse_indexes_ident(child) {
                    Err(e) => {
                        return Err(e);
                    },
                    Ok(t) => t,
                };
                push_text(&mut out.ids, id);
            },
            Rule::IndexesSettings => {
                let settings = match parse_indexes_settings(child) {
                    Err(e) => {
                        return Err(e);
                    },
                    Ok(s) => s,
                };
                out.settings = Some(settings);
            },
            _ => {
                return Err(ParseError::UnexpectedRule);
            },
        }
        i += 1;
    }
    Ok(out)
}

/// Reads the indexes of the body of an index declaration.
pub fn parse_indexes_block(pair: &Pair) -> (r: Result<IndexesBlock, ParseError>)
    ensures
        match r {
            Ok(b) => indexes_block(*pair) == Ok::<IndexesBlockView, ParseError>(b@),
            Err(e) => indexes_block(*pair) == Err::<IndexesBlockView, ParseError>(e),
        },
{
    let mut fields: Vec<IndexesField> = Vec::new();
    assert(fields.deep_view() =~= Seq::empty());
    let mut i: usize = 0;
    while i < pair.inner.len()
        invariant
            i <= pair.inner.len(),
            index_fields_from(Seq::empty(), pair.inner@, 0) == index_fields_from(
                fields.deep_view(),
                pair.inner@,
                i as int,
            ),
        decreases pair.inner.len() - i,
    {
        let child = &pair.inner[i];
        match child.rule {
            Rule::IndexesSingle | Rule::IndexesMulti => {
                let field = match parse_indexes_single_multi(child) {
                    Err(e) => {
                        return Err(e);
                    },
                    Ok(f) => f,
                };
                push_item(&mut fields, field);
            },
            _ => {
                return Err(ParseError::UnexpectedRule);
            },
        }
        i += 1;
    }
    Ok(IndexesBlock { fields })
}

/// Reads the indexes that a declaration declares.
pub fn parse_indexes_decl(pair: &Pair) -> (r: Result<IndexesBlock, ParseError>)
    ensures
        match r {
            Ok(b) => indexes_decl(*pair) == Ok::<IndexesBlockView, ParseError>(b@),
            Err(e) => indexes_decl(*pair) == Err::<IndexesBlockView, ParseError>(e),
        },
{
    if pair.inner.len() == 0 {
        return Err(ParseError::MissingPart);
    }
    match pair.inner[0].rule {
        Rule::IndexesBlock => parse_indexes_block(&pair.inner[0]),
        _ => Err(ParseError::UnexpectedRule),
    }
}

/// A table of which nothing is known yet.
pub open spec fn no_table() -> TableBlockView {
    TableBlockView {
        cols: Seq::empty(),
        ident: TableIdentView { name: Seq::empty(), schema: None, alias: None },
        note: None,
        indexes: None,
    }
}

/// The table after one more child of its body: a column, a note or the
/// indexes.
pub open spec fn table_body_step(out: TableBlockView, child: Pair) -> Result<
    TableBlockView,
    ParseError,
> {
    match child.rule {
        Rule::TableCol => match table_col(child) {
            Err(e) => Err(e),
            Ok(column) => Ok(TableBlockView { cols: out.cols.push(column), ..out }),
        },
        Rule::NoteDecl => match note_decl(child) {
            Err(e) => Err(e),
            Ok(t) => Ok(TableBlockView { note: Some(t), ..out }),
        },
        Rule::IndexesDecl => match indexes_decl(child) {
            Err(e) => Err(e),
            Ok(b) => Ok(TableBlockView { indexes: Some(b), ..out }),
        },
        _ => Err(ParseError::UnexpectedRule),
    }
}

/// The table after the children of its body from `from` on.
pub open spec fn table_body_from(out: TableBlockView, children: Seq<Pair>, from: int) -> Result<
    TableBlockView,
    ParseError,
>
    decreases children.len() - from,
{
    if from < 0 || from >= children.len() {
        Ok(out)
    } else {
        match table_body_step(out, children[from]) {
            Err(e) => Err(e),
            Ok(next) => table_body_from(next, children, from + 1),
        }
    }
}

/// The table after one more child: its name, its alias or its body.
pub open spec fn table_step(out: TableBlockView, child: Pair) -> Result<TableBlockView, ParseError> {
    match child.rule {
        Rule::DeclIdent => match decl_ident(child) {
            Err(e) => Err(e),
            Ok(name) => Ok(
                TableBlockView {
                    ident: TableIdentView { name: name.1, schema: name.0, ..out.ident },
                    ..out
                },
            ),
        },
        Rule::TableAlias => Ok(
            TableBlockView {
                ident: TableIdentView { alias: Some(child.text@), ..out.ident },
                ..out
            },
        ),
        Rule::TableBlock => table_body_from(out, child.inner@, 0),
        _ => Err(ParseError::UnexpectedRule),
    }
}

/// The table after the children from `from` on.
pub open spec fn table_from(out: TableBlockView, children: Seq<Pair>, from: int) -> Result<
    TableBlockView,
    ParseError,
>
    decreases children.len() - from,
{
    if from < 0 || from >= children.len() {
        Ok(out)
    } else {
        match table_step(out, children[from]) {
            Err(e) => Err(e),
            Ok(next) => table_from(next, children, from + 1),
        }
    }
}

/// The table that a node declares.
pub open spec fn table_decl(pair: Pair) -> Result<TableBlockView, ParseError> {
    table_from(no_table(), pair.inner@, 0)
}

/// Reads the body of a table.
fn parse_table_body(out: TableBlock, children: &Vec<Pair>) -> (r: Result<TableBlock, ParseError>)
    ensures
        match r {
            Ok(t) => table_body_from(out@, children@, 0) == Ok::<TableBlockView, ParseError>(t@),
            Err(e) => table_body_from(out@, children@, 0) == Err::<TableBlockView, ParseError>(e),
        },
{
    let mut current = out;
    let mut i: usize = 0;
    while i < children.len()
        invariant
            i <= children.len(),
            table_body_from(out@, children@, 0) == table_body_from(
                current@,
                children@,
                i as int,
            ),
        decreases children.len() - i,
    {
        let child = &children[i];
        match child.rule {
            Rule::TableCol => {
                let column = match parse_table_col(child) {
                    Err(e) => {
                        return Err(e);
                    },
                    Ok(c) => c,
                };
                push_item(&mut current.cols, column);
            },
            Rule::NoteDecl => {
                let note = match parse_note_decl(child) {
                    Err(e) => {
                        return Err(e);
                    },
                    Ok(t) => t,
                };
                current.note = Some(note);
            },
            Rule::IndexesDecl => {
                let indexes = match parse_indexes_decl(child) {
                    Err(e) => {
                        return Err(e);
                    },
                    Ok(b) => b,
                };
                current.indexes = Some(indexes);
            },
            _ => {
                return Err(ParseError::UnexpectedRule);
            },
        }
        i += 1;
    }
    Ok(current)
}

/// Reads a table.
pub fn parse_table_decl(pair: &Pair) -> (r: Result<TableBlock, ParseError>)
    ensures
        match r {
            Ok(t) => table_decl(*pair) == Ok::<TableBlockView, ParseError>(t@),
            Err(e) => table_decl(*pair) == Err::<TableBlockView, ParseError>(e),
        },
{
    let cols: Vec<TableColumn> = Vec::new();
    assert(cols.deep_view() =~= Seq::empty());
    let mut out = TableBlock {
        cols,
        ident: TableIdent { name: String::new(), schema: None, alias: None },
        note: None,
        indexes: None,
    };
    let mut i: usize = 0;
    while i < pair.inner.len()
        invariant
            i <= pair.inner.len(),
            table_decl(*pair) == table_from(out@, pair.inner@, i as int),
        decreases pair.inner.len() - i,
    {
        let child = &pair.inner[i];
        match child.rule {
            Rule::DeclIdent => {
                let (schema, name) = match parse_decl_ident(child) {
                    Err(e) => {
                        return Err(e);
                    },
                    Ok(n) => n,
                };
                out.ident.name = name;
                out.ident.schema = schema;
            },
            Rule::TableAlias => {
                out.ident.alias = Some(child.text.clone());
            },
            Rule::TableBlock => {
                out = match parse_table_body(out, &child.inner) {
                    Err(e) => {
                        return Err(e);
                    },
                    Ok(t) => t,
                };
            },
            _ => {
                return Err(ParseError::UnexpectedRule);
            },
        }
        i += 1;
    }
    Ok(out)
}

} // verus!
