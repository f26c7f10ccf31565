//! Relations in a parse tree.

use crate::ast::refs::{
    RefBlock, RefBlockView, RefIdent, RefIdentView, Relation, RelationAction, RelationSettings,
};
use crate::parser::value::{idents_from, parse_idents, qualified, qualified_name};
use crate::parser::{Pair, ParseError, Rule};
use vstd::prelude::*;

verus! {

/// The names of the table and the names of the columns of one side of a
/// relation, as far as they are read.
pub struct SideParts {
    pub names: Seq<Seq<char>>,
    pub columns: Seq<Seq<char>>,
}

/// The parts of a side after one more child: a part of the table's name, or
/// the list of columns.
pub open spec fn side_step(out: SideParts, child: Pair) -> Result<SideParts, ParseError> {
    match child.rule {
        Rule::Ident => Ok(SideParts { names: out.names.push(child.text@), ..out }),
        Rule::RefComposition => match idents_from(out.columns, child.inner@, 0) {
            Err(e) => Err(e),
            Ok(columns) => Ok(SideParts { columns, ..out }),
        },
        _ => Err(ParseError::UnexpectedRule),
    }
}

/// The parts of a side after the children from `from` on.
pub open spec fn side_from(out: SideParts, children: Seq<Pair>, from: int) -> Result<
    SideParts,
    ParseError,
>
    decreases children.len() - from,
{
    if from < 0 || from >= children.len() {
        Ok(out)
    } else {
        match side_step(out, children[from]) {
            Err(e) => Err(e),
            Ok(next) => side_from(next, children, from + 1),
        }
    }
}

/// One side of a relation: a table, with its schema if it is given, and the
/// columns of the key.
pub open spec fn ref_ident(pair: Pair) -> Result<RefIdentView, ParseError> {
    match side_from(SideParts { names: Seq::empty(), columns: Seq::empty() }, pair.inner@, 0) {
        Err(e) => Err(e),
        Ok(parts) => match qualified(parts.names) {
            Err(e) => Err(e),
            Ok(name) => Ok(RefIdentView { schema: name.0, table: name.1, compositions: parts.columns }),
        },
    }
}

/// Reads one side of a relation.
pub fn parse_ref_ident(pair: &Pair) -> (r: Result<RefIdent, ParseError>)
    ensures
        match r {
            Ok(i) => ref_ident(*pair) == Ok::<RefIdentView, ParseError>(i@),
            Err(e) => ref_ident(*pair) == Err::<RefIdentView, ParseError>(e),
        },
{
    let mut names: Vec<String> = Vec::new();
    let mut columns: Vec<String> = Vec::new();
    assert(names.deep_view() =~= Seq::empty());
    assert(columns.deep_view() =~= Seq::empty());
    let ghost start = SideParts { names: Seq::empty(), columns: Seq::empty() };
    let mut i: usize = 0;
    while i < pair.inner.len()
        invariant
            i <= pair.inner.len(),
            start == (SideParts { names: Seq::empty(), columns: Seq::empty() }),
            side_from(start, pair.inner@, 0) == side_from(
                SideParts { names: names.deep_view(), columns: columns.deep_view() },
                pair.inner@,
                i as int,
            ),
        decreases pair.inner.len() - i,
    {
        let child = &pair.inner[i];
        match child.rule {
            Rule::Ident => {
                crate::text::push_text(&mut names, child.text.clone());
            },
            Rule::RefComposition => {
                columns = match parse_idents(columns, &child.inner) {
                    Err(e) => {
                        return Err(e);
                    },
                    Ok(c) => c,
                };
            },
            _ => {
                return Err(ParseError::UnexpectedRule);
            },
        }
        i += 1;
    }
    match qualified_name(&names) {
        Err(e) => Err(e),
        Ok((schema, table)) => Ok(RefIdent { schema, table, compositions: columns }),
    }
}

/// The action after the children from `from` on: the last that they name;
/// each must name one.
pub open spec fn action_from(out: Option<RelationAction>, children: Seq<Pair>, from: int) -> Result<
    Option<RelationAction>,
    ParseError,
>
    decreases children.len() - from,
{
    if from < 0 || from >= children.len() {
        Ok(out)
    } else {
        match RelationAction::of_phrase(children[from].text@) {
            None => Err(ParseError::UnknownWord),
            Some(action) => action_from(Some(action), children, from + 1),
        }
    }
}

/// The settings after one more child of an attribute: what happens on
/// update, or on deletion.
pub open spec fn attribute_step(out: RelationSettings, child: Pair) -> Result<
    RelationSettings,
    ParseError,
> {
    match child.rule {
        Rule::RelUpdate => match action_from(out.on_update, child.inner@, 0) {
            Err(e) => Err(e),
            Ok(action) => Ok(RelationSettings { on_update: action, ..out }),
        },
        Rule::RelDelete => match action_from(out.on_delete, child.inner@, 0) {
            Err(e) => Err(e),
            Ok(action) => Ok(RelationSettings { on_delete: action, ..out }),
        },
        _ => Err(ParseError::UnexpectedRule),
    }
}

/// The settings after the children of an attribute from `from` on.
pub open spec fn attribute_from(out: RelationSettings, children: Seq<Pair>, from: int) -> Result<
    RelationSettings,
    ParseError,
>
    decreases children.len() - from,
{
    if from < 0 || from >= children.len() {
        Ok(out)
    } else {
        match attribute_step(out, children[from]) {
            Err(e) => Err(e),
            Ok(next) => attribute_from(next, children, from + 1),
        }
    }
}

/// The settings after the attributes from `from` on.
pub open spec fn settings_from(out: RelationSettings, children: Seq<Pair>, from: int) -> Result<
    RelationSettings,
    ParseError,
>
    decreases children.len() - from,
{
    if from < 0 || from >= children.len() {
        Ok(out)
    } else if children[from].rule == Rule::RelAttribute {
        match attribute_from(out, children[from].inner@, 0) {
            Err(e) => Err(e),
            Ok(next) => settings_from(next, children, from + 1),
        }
    } else {
        Err(ParseError::UnexpectedRule)
    }
}

/// The settings of a relation.
pub open spec fn rel_settings(pair: Pair) -> Result<RelationSettings, ParseError> {
    settings_from(RelationSettings { on_delete: None, on_update: None }, pair.inner@, 0)
}

/// Reads the last action that the children name.
pub fn parse_action(out: Option<RelationAction>, children: &Vec<Pair>) -> (r: Result<
    Option<RelationAction>,
    ParseError,
>)
    ensures
        r == action_from(out, children@, 0),
{
    let mut current = out;
    let mut i: usize = 0;
    while i < children.len()
        invariant
            i <= children.len(),
            action_from(out, children@, 0) == action_from(current, children@, i as int),
        decreases children.len() - i,
    {
        match RelationAction::match_type(children[i].text.as_str()) {
            None => {
                return Err(ParseError::UnknownWord);
            },
            Some(action) => {
                current = Some(action);
            },
        }
        i += 1;
    }
    Ok(current)
}

/// Reads the children of an attribute of a relation.
pub fn parse_rel_attribute(out: RelationSettings, children: &Vec<Pair>) -> (r: Result<
    RelationSettings,
    ParseError,
>)
    ensures
        r == attribute_from(out, children@, 0),
{
    let mut current = out;
    let mut i: usize = 0;
    while i < children.len()
        invariant
            i <= children.len(),
            attribute_from(out, children@, 0) == attribute_from(current, children@, i as int),
        decreases children.len() - i,
    {
        let child = &children[i];
        match child.rule {
            Rule::RelUpdate => {
                match parse_action(current.on_update, &child.inner) {
                    Err(e) => {
                        return Err(e);
                    },
                    Ok(action) => {
                        current = RelationSettings {
                            on_delete: current.on_delete,
                            on_update: action,
                        };
                    },
                }
            },
            Rule::RelDelete => {
                match parse_action(current.on_delete, &child.inner) {
                    Err(e) => {
                        return Err(e);
                    },
                    Ok(action) => {
                        current = RelationSettings {
                            on_delete: action,
                            on_update: current.on_update,
                        };
                    },
                }
            },
            _ => {
                return Err(ParseError::UnexpectedRule);
            },
        }
        i += 1;
    }
    Ok(current)
}

/// Reads the settings of a relation.
pub fn parse_rel_settings(pair: &Pair) -> (r: Result<RelationSettings, ParseError>)
    ensures
        r == rel_settings(*pair),
{
    let ghost start = RelationSettings { on_delete: None, on_update: None };
    let mut current = RelationSettings { on_delete: None, on_update: None };
    let mut i: usize = 0;
    while i < pair.inner.len()
        invariant
            i <= pair.inner.len(),
            start == (RelationSettings { on_delete: None, on_update: None }),
            settings_from(start, pair.inner@, 0) == settings_from(current, pair.inner@, i as int),
        decreases pair.inner.len() - i,
    {
        let child = &pair.inner[i];
        match child.rule {
            Rule::RelAttribute => {
                current = match parse_rel_attribute(current, &child.inner) {
                    Err(e) => {
                        return Err(e);
                    },
                    Ok(s) => s,
                };
            },
            _ => {
                return Err(ParseError::UnexpectedRule);
            },
        }
        i += 1;
    }
    Ok(current)
}

/// An empty relation, from which reading starts.
pub open spec fn empty_ref() -> RefBlockView {
    RefBlockView {
        rel: Relation::Undef,
        lhs: None,
        rhs: RefIdentView { schema: None, table: Seq::empty(), compositions: Seq::empty() },
        settings: None,
    }
}

/// The relation after one more child: its kind, one of its sides, or its
/// settings. A side that comes before the kind is the left one.
pub open spec fn ref_step(out: RefBlockView, child: Pair) -> Result<RefBlockView, ParseError> {
    match child.rule {
        Rule::Relation => match Relation::of_symbol(child.text@) {
            Some(rel) => Ok(RefBlockView { rel, ..out }),
            None => Err(ParseError::UnknownWord),
        },
        Rule::RefIdent => match ref_ident(child) {
            Err(e) => Err(e),
            Ok(side) => if out.rel == Relation::Undef {
                Ok(RefBlockView { lhs: Some(side), ..out })
            } else {
                Ok(RefBlockView { rhs: side, ..out })
            },
        },
        Rule::RelSettings => match rel_settings(child) {
            Err(e) => Err(e),
            Ok(settings) => Ok(RefBlockView { settings: Some(settings), ..out }),
        },
        _ => Err(ParseError::UnexpectedRule),
    }
}

/// The relation after the children from `from` on.
pub open spec fn ref_from(out: RefBlockView, children: Seq<Pair>, from: int) -> Result<
    RefBlockView,
    ParseError,
>
    decreases children.len() - from,
{
    if from < 0 || from >= children.len() {
        Ok(out)
    } else {
        match ref_step(out, children[from]) {
            Err(e) => Err(e),
            Ok(next) => ref_from(next, children, from + 1),
        }
    }
}

/// The relation that a statement declares, on a column or at top level.
pub open spec fn ref_stmt(pair: Pair) -> Result<RefBlockView, ParseError> {
    ref_from(empty_ref(), pair.inner@, 0)
}

/// The relation that a declaration at top level declares: that of the first
/// statement in its body; a body without a statement is passed over.
pub open spec fn ref_decl_from(children: Seq<Pair>, from: int) -> Result<RefBlockView, ParseError>
    decreases children.len() - from,
{
    if from < 0 || from >= children.len() {
        Err(ParseError::MissingPart)
    } else if children[from].rule == Rule::RefBlock || children[from].rule == Rule::RefShort {
        let body = children[from].inner@;
        if body.len() == 0 {
            ref_decl_from(children, from + 1)
        } else if body[0].rule == Rule::RefStmt {
            ref_stmt(body[0])
        } else {
            Err(ParseError::UnexpectedRule)
        }
    } else {
        Err(ParseError::UnexpectedRule)
    }
}

/// The relation that a declaration at top level declares.
pub open spec fn ref_decl(pair: Pair) -> Result<RefBlockView, ParseError> {
    ref_decl_from(pair.inner@, 0)
}

/// Reads the relation that a statement declares.
pub fn parse_ref_stmt_inline(pair: &Pair) -> (r: Result<RefBlock, ParseError>)
    ensures
        match r {
            Ok(b) => ref_stmt(*pair) == Ok::<RefBlockView, ParseError>(b@),
            Err(e) => ref_stmt(*pair) == Err::<RefBlockView, ParseError>(e),
        },
{
    let compositions: Vec<String> = Vec::new();
    assert(compositions.deep_view() =~= Seq::empty());
    let mut out = RefBlock {
        rel: Relation::Undef,
        lhs: None,
        rhs: RefIdent { schema: None, table: String::new(), compositions },
        settings: None,
    };
    let mut i: usize = 0;
    while i < pair.inner.len()
        invariant
            i <= pair.inner.len(),
            ref_stmt(*pair) == ref_from(out@, pair.inner@, i as int),
        decreases pair.inner.len() - i,
    {
        let child = &pair.inner[i];
        match child.rule {
            Rule::Relation => match Relation::match_type(child.text.as_str()) {
                Some(rel) => {
                    out.rel = rel;
                },
                None => {
                    return Err(ParseError::UnknownWord);
                },
            },
            Rule::RefIdent => {
                let value = match parse_ref_ident(child) {
                    Err(e) => {
                        return Err(e);
                    },
                    Ok(v) => v,
                };
                if out.rel == Relation::Undef {
                    out.lhs = Some(value);
                } else {
                    out.rhs = value;
                }
            },
            Rule::RelSettings => {
                let settings = match parse_rel_settings(child) {
                    Err(e) => {
                        return Err(e);
                    },
                    Ok(s) => s,
                };
                out.settings = Some(settings);
            },
            _ => {
                return Err(ParseError::UnexpectedRule);
            },
        }
        i += 1;
    }
    Ok(out)
}

/// Reads the relation that a declaration at top level declares.
pub fn parse_ref_decl(pair: &Pair) -> (r: Result<RefBlock, ParseError>)
    ensures
        match r {
            Ok(b) => ref_decl(*pair) == Ok::<RefBlockView, ParseError>(b@),
            Err(e) => ref_decl(*pair) == Err::<RefBlockView, ParseError>(e),
        },
{
    let mut i: usize = 0;
    while i < pair.inner.len()
        invariant
            i <= pair.inner.len(),
            ref_decl(*pair) == ref_decl_from(pair.inner@, i as int),
        decreases pair.inner.len() - i,
    {
        let child = &pair.inner[i];
        match child.rule {
            Rule::RefBlock | Rule::RefShort => {
                if child.inner.len() > 0 {
                    match child.inner[0].rule {
                        Rule::RefStmt => {
                            return parse_ref_stmt_inline(&child.inner[0]);
                        },
                        _ => {
                            return Err(ParseError::UnexpectedRule);
                        },
                    }
                }
            },
            _ => {
                return Err(ParseError::UnexpectedRule);
            },
        }
        i += 1;
    }
    Err(ParseError::MissingPart)
}

} // verus!
