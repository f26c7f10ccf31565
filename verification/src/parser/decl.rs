//! The project, the enums and the table groups in a parse tree.

use crate::ast::enums::{EnumBlock, EnumBlockView, EnumId, EnumIdView, EnumValue, EnumValueView};
use crate::ast::project::{ProjectBlock, ProjectBlockView};
use crate::ast::table_group::{
    TableGroupBlock, TableGroupBlockView, TableGroupId, TableGroupIdView,
};
use crate::parser::value::{
    decl_ident, note_decl, note_inline, parse_decl_ident, parse_note_decl, parse_note_inline,
    parse_string_value, string_value,
};
use crate::parser::{Pair, ParseError, Rule};
use crate::text::{push_item, str_eq};
use vstd::prelude::*;

verus! {

/// A key and a value after one more child of a statement of the project.
pub open spec fn stmt_step(out: (Seq<char>, Seq<char>), child: Pair) -> Result<
    (Seq<char>, Seq<char>),
    ParseError,
> {
    match child.rule {
        Rule::ProjectKey => Ok((child.text@, out.1)),
        Rule::StringValue => match string_value(child) {
            Err(e) => Err(e),
            Ok(value) => Ok((out.0, value)),
        },
        _ => Err(ParseError::UnexpectedRule),
    }
}

/// A key and a value after the children from `from` on.
pub open spec fn stmt_from(out: (Seq<char>, Seq<char>), children: Seq<Pair>, from: int) -> Result<
    (Seq<char>, Seq<char>),
    ParseError,
>
    decreases children.len() - from,
{
    if from < 0 || from >= children.len() {
        Ok(out)
    } else {
        match stmt_step(out, children[from]) {
            Err(e) => Err(e),
            Ok(next) => stmt_from(next, children, from + 1),
        }
    }
}

/// The key and the value of a statement of the project.
pub open spec fn project_stmt(pair: Pair) -> Result<(Seq<char>, Seq<char>), ParseError> {
    stmt_from((Seq::empty(), Seq::empty()), pair.inner@, 0)
}

/// Reads the key and the value of a statement of the project.
pub fn parse_project_stmt(pair: &Pair) -> (r: Result<(String, String), ParseError>)
    ensures
        match r {
            Ok(s) => project_stmt(*pair) == Ok::<(Seq<char>, Seq<char>), ParseError>(
                (s.0@, s.1@),
            ),
            Err(e) => project_stmt(*pair) == Err::<(Seq<char>, Seq<char>), ParseError>(e),
        },
{
    let mut key = String::new();
    let mut value = String::new();
    let mut i: usize = 0;
    while i < pair.inner.len()
        invariant
            i <= pair.inner.len(),
            project_stmt(*pair) == stmt_from((key@, value@), pair.inner@, i as int),
        decreases pair.inner.len() - i,
    {
        let child = &pair.inner[i];
        match child.rule {
            Rule::ProjectKey => {
                key = child.text.clone();
            },
            Rule::StringValue => {
                value = match parse_string_value(child) {
                    Err(e) => {
                        return Err(e);
                    },
                    Ok(t) => t,
                };
            },
            _ => {
                return Err(ParseError::UnexpectedRule);
            },
        }
        i += 1;
    }
    Ok((key, value))
}

/// The project after one more child of its body: a statement, whose key
/// must be the database type, or a note.
pub open spec fn project_body_step(out: ProjectBlockView, child: Pair) -> Result<
    ProjectBlockView,
    ParseError,
> {
    match child.rule {
        Rule::ProjectStmt => match project_stmt(child) {
            Err(e) => Err(e),
            Ok(stmt) => if stmt.0 == "database_type"@ {
                Ok(ProjectBlockView { database_type: stmt.1, ..out })
            } else {
                Err(ParseError::UnknownWord)
            },
        },
        Rule::NoteDecl => match note_decl(child) {
            Err(e) => Err(e),
            Ok(t) => Ok(ProjectBlockView { note: Some(t), ..out }),
        },
        _ => Err(ParseError::UnexpectedRule),
    }
}

/// The project after the children of its body from `from` on.
pub open spec fn project_body_from(out: ProjectBlockView, children: Seq<Pair>, from: int) -> Result<
    ProjectBlockView,
    ParseError,
>
    decreases children.len() - from,
{
    if from < 0 || from >= children.len() {
        Ok(out)
    } else {
        match project_body_step(out, children[from]) {
            Err(e) => Err(e),
            Ok(next) => project_body_from(next, children, from + 1),
        }
    }
}

/// The project after the children from `from` on: its name and its body.
pub open spec fn project_from(out: ProjectBlockView, children: Seq<Pair>, from: int) -> Result<
    ProjectBlockView,
    ParseError,
>
    decreases children.len() - from,
{
    if from < 0 || from >= children.len() {
        Ok(out)
    } else {
        let next = match children[from].rule {
            Rule::Ident => Ok(ProjectBlockView { name: children[from].text@, ..out }),
            Rule::ProjectBlock => project_body_from(out, children[from].inner@, 0),
            _ => Err(ParseError::UnexpectedRule),
        };
        match next {
            Err(e) => Err(e),
            Ok(p) => project_from(p, children, from + 1),
        }
    }
}

/// The project that a node declares.
pub open spec fn project_decl(pair: Pair) -> Result<ProjectBlockView, ParseError> {
    project_from(
        ProjectBlockView { name: Seq::empty(), database_type: Seq::empty(), note: None },
        pair.inner@,
        0,
    )
}

/// Reads the body of a project.
fn parse_project_body(out: ProjectBlock, children: &Vec<Pair>) -> (r: Result<
    ProjectBlock,
    ParseError,
>)
    ensures
        match r {
            Ok(p) => project_body_from(out@, children@, 0) == Ok::<ProjectBlockView, ParseError>(
                p@,
            ),
            Err(e) => project_body_from(out@, children@, 0) == Err::<
                ProjectBlockView,
                ParseError,
            >(e),
        },
{
    let mut current = out;
    let mut i: usize = 0;
    while i < children.len()
        invariant
            i <= children.len(),
            project_body_from(out@, children@, 0) == project_body_from(
                current@,
                children@,
                i as int,
            ),
        decreases children.len() - i,
    {
        let child = &children[i];
        match child.rule {
            Rule::ProjectStmt => {
                let (key, value) = match parse_project_stmt(child) {
                    Err(e) => {
                        return Err(e);
                    },
                    Ok(s) => s,
                };
                if str_eq(key.as_str(), "database_type") {
                    current.database_type = value;
                } else {
                    return Err(ParseError::UnknownWord);
                }
            },
            Rule::NoteDecl => {
                let note = match parse_note_decl(child) {
                    Err(e) => {
                        return Err(e);
                    },
                    Ok(t) => t,
                };
                current.note = Some(note);
            },
            _ => {
                return Err(ParseError::UnexpectedRule);
            },
        }
        i += 1;
    }
    Ok(current)
}

/// Reads a project.
pub fn parse_project_decl(pair: &Pair) -> (r: Result<ProjectBlock, ParseError>)
    ensures
        match r {
            Ok(p) => project_decl(*pair) == Ok::<ProjectBlockView, ParseError>(p@),
            Err(e) => project_decl(*pair) == Err::<ProjectBlockView, ParseError>(e),
        },
{
    let mut out = ProjectBlock { name: String::new(), database_type: String::new(), note: None };
    let mut i: usize = 0;
    while i < pair.inner.len()
        invariant
            i <= pair.inner.len(),
            project_decl(*pair) == project_from(out@, pair.inner@, i as int),
        decreases pair.inner.len() - i,
    {
        let child = &pair.inner[i];
        match child.rule {
            Rule::Ident => {
                out.name = child.text.clone();
            },
            Rule::ProjectBlock => {
                out = match parse_project_body(out, &child.inner) {
                    Err(e) => {
                        return Err(e);
                    },
                    Ok(p) => p,
                };
            },
            _ => {
                return Err(ParseError::UnexpectedRule);
            },
        }
        i += 1;
    }
    Ok(out)
}

/// The note of an enum value after the children of an attribute from `from`
/// on: each is a note.
pub open spec fn enum_note_from(note: Seq<char>, children: Seq<Pair>, from: int) -> Result<
    Seq<char>,
    ParseError,
>
    decreases children.len() - from,
{
    if from < 0 || from >= children.len() {
        Ok(note)
    } else if children[from].rule == Rule::NoteInline {
        match note_inline(children[from]) {
            Err(e) => Err(e),
            Ok(t) => enum_note_from(t, children, from + 1),
        }
    } else {
        Err(ParseError::UnexpectedRule)
    }
}

/// The note of an enum value after the attributes from `from` on.
pub open spec fn enum_settings_from(note: Seq<char>, children: Seq<Pair>, from: int) -> Result<
    Seq<char>,
    ParseError,
>
    decreases children.len() - from,
{
    if from < 0 || from >= children.len() {
        Ok(note)
    } else if children[from].rule == Rule::EnumAttribute {
        match enum_note_from(note, children[from].inner@, 0) {
            Err(e) => Err(e),
            Ok(t) => enum_settings_from(t, children, from + 1),
        }
    } else {
        Err(ParseError::UnexpectedRule)
    }
}

/// The enum value after the children from `from` on: its name and its
/// settings.
pub open spec fn enum_value_from(out: EnumValueView, children: Seq<Pair>, from: int) -> Result<
    EnumValueView,
    ParseError,
>
    decreases children.len() - from,
{
    if from < 0 || from >= children.len() {
        Ok(out)
    } else {
        let next = match children[from].rule {
            Rule::Ident => Ok(EnumValueView { value: children[from].text@, ..out }),
            Rule::EnumSettings => match enum_settings_from(out.note, children[from].inner@, 0) {
                Err(e) => Err(e),
                Ok(note) => Ok(EnumValueView { note, ..out }),
            },
            _ => Err(ParseError::UnexpectedRule),
        };
        match next {
            Err(e) => Err(e),
            Ok(v) => enum_value_from(v, children, from + 1),
        }
    }
}

/// The enum value that a node declares.
pub open spec fn enum_value(pair: Pair) -> Result<EnumValueView, ParseError> {
    enum_value_from(EnumValueView { value: Seq::empty(), note: Seq::empty() }, pair.inner@, 0)
}

/// The enum values after the children from `from` on: one for each.
pub open spec fn enum_values_from(out: Seq<EnumValueView>, children: Seq<Pair>, from: int) -> Result<
    Seq<EnumValueView>,
    ParseError,
>
    decreases children.len() - from,
{
    if from < 0 || from >= children.len() {
        Ok(out)
    } else if children[from].rule == Rule::EnumValue {
        match enum_value(children[from]) {
            Err(e) => Err(e),
            Ok(v) => enum_values_from(out.push(v), children, from + 1),
        }
    } else {
        Err(ParseError::UnexpectedRule)
    }
}

/// The values that the body of an enum declares.
pub open spec fn enum_block(pair: Pair) -> Result<Seq<EnumValueView>, ParseError> {
    enum_values_from(Seq::empty(), pair.inner@, 0)
}

/// The enum after the children from `from` on: its name and its body.
pub open spec fn enum_from(out: EnumBlockView, children: Seq<Pair>, from: int) -> Result<
    EnumBlockView,
    ParseError,
>
    decreases children.len() - from,
{
    if from < 0 || from >= children.len() {
        Ok(out)
    } else {
        let next = match children[from].rule {
            Rule::DeclIdent => match decl_ident(children[from]) {
                Err(e) => Err(e),
                Ok(name) => Ok(
                    EnumBlockView { id: EnumIdView { name: name.1, schema: name.0 }, ..out },
                ),
            },
            Rule::EnumBlock => match enum_block(children[from]) {
                Err(e) => Err(e),
                Ok(values) => Ok(EnumBlockView { values, ..out }),
            },
            _ => Err(ParseError::UnexpectedRule),
        };
        match next {
            Err(e) => Err(e),
            Ok(b) => enum_from(b, children, from + 1),
        }
    }
}

/// The enum that a node declares.
pub open spec fn enum_decl(pair: Pair) -> Result<EnumBlockView, ParseError> {
    enum_from(
        EnumBlockView {
            id: EnumIdView { name: Seq::empty(), schema: None },
            values: Seq::empty(),
        },
        pair.inner@,
        0,
    )
}

/// Reads the notes of an attribute of an enum value.
fn parse_enum_notes(note: String, children: &Vec<Pair>) -> (r: Result<String, ParseError>)
    ensures
        match r {
            Ok(t) => enum_note_from(note@, children@, 0) == Ok::<Seq<char>, ParseError>(t@),
            Err(e) => enum_note_from(note@, children@, 0) == Err::<Seq<char>, ParseError>(e),
        },
{
    let mut out = note;
    let mut i: usize = 0;
    while i < children.len()
        invariant
            i <= children.len(),
            enum_note_from(note@, children@, 0) == enum_note_from(out@, children@, i as int),
        decreases children.len() - i,
    {
        match children[i].rule {
            Rule::NoteInline => {
                out = match parse_note_inline(&children[i]) {
                    Err(e) => {
                        return Err(e);
                    },
                    Ok(t) => t,
                };
            },
            _ => {
                return Err(ParseError::UnexpectedRule);
            },
        }
        i += 1;
    }
    Ok(out)
}

/// Reads the settings of an enum value.
fn parse_enum_settings(note: String, children: &Vec<Pair>) -> (r: Result<String, ParseError>)
    ensures
        match r {
            Ok(t) => enum_settings_from(note@, children@, 0) == Ok::<Seq<char>, ParseError>(t@),
            Err(e) => enum_settings_from(note@, children@, 0) == Err::<Seq<char>, ParseError>(e),
        },
{
    let mut out = note;
    let mut i: usize = 0;
    while i < children.len()
        invariant
            i <= children.len(),
            enum_settings_from(note@, children@, 0) == enum_settings_from(
                out@,
                children@,
                i as int,
            ),
        decreases children.len() - i,
    {
        match children[i].rule {
            Rule::EnumAttribute => {
                out = match parse_enum_notes(out, &children[i].inner) {
                    Err(e) => {
                        return Err(e);
                    },
                    Ok(t) => t,
                };
            },
            _ => {
                return Err(ParseError::UnexpectedRule);
            },
        }
        i += 1;
    }
    Ok(out)
}

/// Reads an enum value.
pub fn parse_enum_value(pair: &Pair) -> (r: Result<EnumValue, ParseError>)
    ensures
        match r {
            Ok(v) => enum_value(*pair) == Ok::<EnumValueView, ParseError>(v@),
            Err(e) => enum_value(*pair) == Err::<EnumValueView, ParseError>(e),
        },
{
    let mut out = EnumValue { value: String::new(), note: String::new() };
    let mut i: usize = 0;
    while i < pair.inner.len()
        invariant
            i <= pair.inner.len(),
            enum_value(*pair) == enum_value_from(out@, pair.inner@, i as int),
        decreases pair.inner.len() - i,
    {
        let child = &pair.inner[i];
        match child.rule {
            Rule::Ident => {
                out.value = child.text.clone();
            },
            Rule::EnumSettings => {
                let note = match parse_enum_settings(out.note.clone(), &child.inner) {
                    Err(e) => {
                        return Err(e);
                    },
                    Ok(t) => t,
                };
                out.note = note;
            },
            _ => {
                return Err(ParseError::UnexpectedRule);
            },
        }
        i += 1;
    }
    Ok(out)
}

/// Reads the values of the body of an enum.
pub fn parse_enum_block(pair: &Pair) -> (r: Result<Vec<EnumValue>, ParseError>)
    ensures
        match r {
            Ok(v) => enum_block(*pair) == Ok::<Seq<EnumValueView>, ParseError>(v.deep_view()),
            Err(e) => enum_block(*pair) == Err::<Seq<EnumValueView>, ParseError>(e),
        },
{
    let mut out: Vec<EnumValue> = Vec::new();
    assert(out.deep_view() =~= Seq::empty());
    let mut i: usize = 0;
    while i < pair.inner.len()
        invariant
            i <= pair.inner.len(),
            enum_block(*pair) == enum_values_from(out.deep_view(), pair.inner@, i as int),
        decreases pair.inner.len() - i,
    {
        let child = &pair.inner[i];
        match child.rule {
            Rule::EnumValue => {
                let value = match parse_enum_value(child) {
                    Err(e) => {
                        return Err(e);
                    },
                    Ok(v) => v,
                };
                push_item(&mut out, value);
            },
            _ => {
                return Err(ParseError::UnexpectedRule);
            },
        }
        i += 1;
    }
    Ok(out)
}

/// Reads an enum.
pub fn parse_enum_decl(pair: &Pair) -> (r: Result<EnumBlock, ParseError>)
    ensures
        match r {
            Ok(b) => enum_decl(*pair) == Ok::<EnumBlockView, ParseError>(b@),
            Err(e) => enum_decl(*pair) == Err::<EnumBlockView, ParseError>(e),
        },
{
    let values: Vec<EnumValue> = Vec::new();
    assert(values.deep_view() =~= Seq::empty());
    let mut out = EnumBlock { id: EnumId { name: String::new(), schema: None }, values };
    let mut i: usize = 0;
    while i < pair.inner.len()
        invariant
            i <= pair.inner.len(),
            enum_decl(*pair) == enum_from(out@, pair.inner@, i as int),
        decreases pair.inner.len() - i,
    {
        let child = &pair.inner[i];
        match child.rule {
            Rule::DeclIdent => {
                let (schema, name) = match parse_decl_ident(child) {
                    Err(e) => {
                        return Err(e);
                    },
                    Ok(n) => n,
                };
                out.id = EnumId { name, schema };
            },
            Rule::EnumBlock => {
                out.values = match parse_enum_block(child) {
                    Err(e) => {
                        return Err(e);
                    },
                    Ok(v) => v,
                };
            },
            _ => {
                return Err(ParseError::UnexpectedRule);
            },
        }
        i += 1;
    }
    Ok(out)
}

/// The members of a table group after the children from `from` on: one for
/// each name.
pub open spec fn members_from(out: Seq<TableGroupIdView>, children: Seq<Pair>, from: int) -> Result<
    Seq<TableGroupIdView>,
    ParseError,
>
    decreases children.len() - from,
{
    if from < 0 || from >= children.len() {
        Ok(out)
    } else if children[from].rule == Rule::DeclIdent {
        match decl_ident(children[from]) {
            Err(e) => Err(e),
            Ok(name) => members_from(
                out.push(TableGroupIdView { name_1: name.0, name_2: name.1 }),
                children,
                from + 1,
            ),
        }
    } else {
        Err(ParseError::UnexpectedRule)
    }
}

/// The table group after the children from `from` on: its name and its
/// body.
pub open spec fn group_from(out: TableGroupBlockView, children: Seq<Pair>, from: int) -> Result<
    TableGroupBlockView,
    ParseError,
>
    decreases children.len() - from,
{
    if from < 0 || from >= children.len() {
        Ok(out)
    } else {
        let next = match children[from].rule {
            Rule::Ident => Ok(TableGroupBlockView { name: children[from].text@, ..out }),
            Rule::TableGroupBlock => match members_from(
                out.table_ids,
                children[from].inner@,
                0,
            ) {
                Err(e) => Err(e),
                Ok(table_ids) => Ok(TableGroupBlockView { table_ids, ..out }),
            },
            _ => Err(ParseError::UnexpectedRule),
        };
        match next {
            Err(e) => Err(e),
            Ok(g) => group_from(g, children, from + 1),
        }
    }
}

/// The table group that a node declares.
pub open spec fn table_group_decl(pair: Pair) -> Result<TableGroupBlockView, ParseError> {
    group_from(
        TableGroupBlockView { name: Seq::empty(), table_ids: Seq::empty() },
        pair.inner@,
        0,
    )
}

/// Reads the members of a table group.
fn parse_members(out: Vec<TableGroupId>, children: &Vec<Pair>) -> (r: Result<
    Vec<TableGroupId>,
    ParseError,
>)
    ensures
        match r {
            Ok(m) => members_from(out.deep_view(), children@, 0) == Ok::<
                Seq<TableGroupIdView>,
                ParseError,
            >(m.deep_view()),
            Err(e) => members_from(out.deep_view(), children@, 0) == Err::<
                Seq<TableGroupIdView>,
                ParseError,
            >(e),
        },
{
    let mut current = out;
    let mut i: usize = 0;
    while i < children.len()
        invariant
            i <= children.len(),
            members_from(out.deep_view(), children@, 0) == members_from(
                current.deep_view(),
                children@,
                i as int,
            ),
        decreases children.len() - i,
    {
        match children[i].rule {
            Rule::DeclIdent => {
                let (schema, name) = match parse_decl_ident(&children[i]) {
                    Err(e) => {
                        return Err(e);
                    },
                    Ok(n) => n,
                };
                push_item(&mut current, TableGroupId { name_1: schema, name_2: name });
            },
            _ => {
                return Err(ParseError::UnexpectedRule);
            },
        }
        i += 1;
    }
    Ok(current)
}

/// Reads a table group.
pub fn parse_table_group_decl(pair: &Pair) -> (r: Result<TableGroupBlock, ParseError>)
    ensures
        match r {
            Ok(g) => table_group_decl(*pair) == Ok::<TableGroupBlockView, ParseError>(g@),
            Err(e) => table_group_decl(*pair) == Err::<TableGroupBlockView, ParseError>(e),
        },
{
    let table_ids: Vec<TableGroupId> = Vec::new();
    assert(table_ids.deep_view() =~= Seq::empty());
    let mut name = String::new();
    let mut members = table_ids;
    let mut i: usize = 0;
    while i < pair.inner.len()
        invariant
            i <= pair.inner.len(),
            table_group_decl(*pair) == group_from(
                TableGroupBlockView { name: name@, table_ids: members.deep_view() },
                pair.inner@,
                i as int,
            ),
        decreases pair.inner.len() - i,
    {
        let child = &pair.inner[i];
        match child.rule {
            Rule::Ident => {
                name = child.text.clone();
            },
            Rule::TableGroupBlock => {
                members = match parse_members(members, &child.inner) {
                    Err(e) => {
                        return Err(e);
                    },
                    Ok(m) => m,
                };
            },
            _ => {
                return Err(ParseError::UnexpectedRule);
            },
        }
        i += 1;
    }
    Ok(TableGroupBlock { name, table_ids: members })
}

} // verus!
