//! From a parse tree to the syntax tree of a schema description.
//!
//! The parse tree is what a grammar of the schema language yields for a
//! text: each node names the rule that matched, holds the text that it
//! matched, and has the nodes of the rules inside it as its children.

use crate::ast::schema::{SchemaBlock, SchemaBlockView};
use crate::parser::decl::{
    enum_decl, parse_enum_decl, parse_project_decl, parse_table_group_decl, project_decl,
    table_group_decl,
};
use crate::parser::refs::{parse_ref_decl, ref_decl};
use crate::parser::table::{parse_table_decl, table_decl};
use crate::text::push_item;
use vstd::prelude::*;

pub mod decl;
pub mod number;
pub mod refs;
pub mod table;
pub mod value;

verus! {

/// The rules of the grammar of the schema language.
#[derive(Debug, PartialEq, Eq, Clone, Copy, Structural)]
pub enum Rule {
    Schema,
    ProjectDecl,
    ProjectBlock,
    ProjectStmt,
    ProjectKey,
    TableDecl,
    TableAlias,
    TableBlock,
    TableCol,
    ColType,
    ColTypeSingle,
    ColTypeArray,
    ColTypeArg,
    ColSettings,
    ColAttribute,
    ColDefault,
    EnumDecl,
    EnumBlock,
    EnumValue,
    EnumSettings,
    EnumAttribute,
    RefDecl,
    RefBlock,
    RefShort,
    RefStmt,
    RefInline,
    RefIdent,
    RefComposition,
    Relation,
    RelSettings,
    RelAttribute,
    RelUpdate,
    RelDelete,
    RelAction,
    TableGroupDecl,
    TableGroupBlock,
    NoteDecl,
    NoteShort,
    NoteBlock,
    NoteInline,
    IndexesDecl,
    IndexesBlock,
    IndexesSingle,
    IndexesMulti,
    IndexesIdent,
    IndexesSettings,
    IndexesAttribute,
    IndexesFlag,
    IndexesType,
    IndexesName,
    Ident,
    Var,
    DeclIdent,
    Value,
    StringValue,
    TripleQuotedString,
    TripleQuotedValue,
    SingleQuotedString,
    SingleQuotedValue,
    BackquotedQuotedString,
    BackquotedQuotedValue,
    NumberValue,
    Decimal,
    Integer,
    BooleanValue,
    BooleanWord,
    Eoi,
}

/// A node of a parse tree: the rule that matched, the text that it matched,
/// and the nodes of the rules inside it, in the order of the text.
#[derive(Debug, PartialEq, Eq)]
pub struct Pair {
    pub rule: Rule,
    pub text: String,
    pub inner: Vec<Pair>,
}

/// Why a parse tree does not stand for a schema description.
#[derive(Debug, PartialEq, Eq, Clone, Copy, Structural)]
pub enum ParseError {
    /// A node stands where its rule is not expected.
    UnexpectedRule,
    /// A node lacks the child that gives its value.
    MissingPart,
    /// A name has more than two parts, or none.
    MalformedIdent,
    /// The text of an integer is no integer of 32 bits.
    InvalidNumber,
    /// The text is none of the words expected in its place.
    UnknownWord,
}

/// A description in which nothing is declared.
pub open spec fn no_schema() -> SchemaBlockView {
    SchemaBlockView {
        project: None,
        tables: Seq::empty(),
        table_groups: Seq::empty(),
        refs: Seq::empty(),
        enums: Seq::empty(),
    }
}

/// The description after one more declaration: the project, a table, an
/// enum, a relation or a table group. The end of the text declares nothing.
pub open spec fn schema_step(out: SchemaBlockView, child: Pair) -> Result<
    SchemaBlockView,
    ParseError,
> {
    match child.rule {
        Rule::ProjectDecl => match project_decl(child) {
            Err(e) => Err(e),
            Ok(p) => Ok(SchemaBlockView { project: Some(p), ..out }),
        },
        Rule::TableDecl => match table_decl(child) {
            Err(e) => Err(e),
            Ok(t) => Ok(SchemaBlockView { tables: out.tables.push(t), ..out }),
        },
        Rule::EnumDecl => match enum_decl(child) {
            Err(e) => Err(e),
            Ok(b) => Ok(SchemaBlockView { enums: out.enums.push(b), ..out }),
        },
        Rule::RefDecl => match ref_decl(child) {
            Err(e) => Err(e),
            Ok(b) => Ok(SchemaBlockView { refs: out.refs.push(b), ..out }),
        },
        Rule::TableGroupDecl => match table_group_decl(child) {
            Err(e) => Err(e),
            Ok(g) => Ok(SchemaBlockView { table_groups: out.table_groups.push(g), ..out }),
        },
        Rule::Eoi => Ok(out),
        _ => Err(ParseError::UnexpectedRule),
    }
}

/// The description after the declarations from `from` on.
pub open spec fn schema_from(out: SchemaBlockView, children: Seq<Pair>, from: int) -> Result<
    SchemaBlockView,
    ParseError,
>
    decreases children.len() - from,
{
    if from < 0 || from >= children.len() {
        Ok(out)
    } else {
        match schema_step(out, children[from]) {
            Err(e) => Err(e),
            Ok(next) => schema_from(next, children, from + 1),
        }
    }
}

/// The description that the node of a whole text stands for.
pub open spec fn schema_of(pair: Pair) -> Result<SchemaBlockView, ParseError> {
    schema_from(no_schema(), pair.inner@, 0)
}

/// The description that the parse of a text stands for: that of its first
/// node, which must be the node of a whole text.
pub open spec fn parse_spec(pairs: Seq<Pair>) -> Result<SchemaBlockView, ParseError> {
    if pairs.len() == 0 {
        Err(ParseError::MissingPart)
    } else if pairs[0].rule == Rule::Schema {
        schema_of(pairs[0])
    } else {
        Err(ParseError::UnexpectedRule)
    }
}

/// A description in which nothing is declared.
pub fn empty_schema() -> (r: SchemaBlock)
    ensures
        r@ == no_schema(),
{
    let r = SchemaBlock {
        project: None,
        tables: Vec::new(),
        table_groups: Vec::new(),
        refs: Vec::new(),
        enums: Vec::new(),
    };
    assert(r@.tables =~= Seq::empty());
    assert(r@.table_groups =~= Seq::empty());
    assert(r@.refs =~= Seq::empty());
    assert(r@.enums =~= Seq::empty());
    r
}

/// Reads the description that the node of a whole text stands for.
pub fn parse_schema(pair: &Pair) -> (r: Result<SchemaBlock, ParseError>)
    ensures
        match r {
            Ok(s) => schema_of(*pair) == Ok::<SchemaBlockView, ParseError>(s@),
            Err(e) => schema_of(*pair) == Err::<SchemaBlockView, ParseError>(e),
        },
{
    let mut out = empty_schema();
    let mut i: usize = 0;
    while i < pair.inner.len()
        invariant
            i <= pair.inner.len(),
            schema_of(*pair) == schema_from(out@, pair.inner@, i as int),
        decreases pair.inner.len() - i,
    {
        let child = &pair.inner[i];
        match child.rule {
            Rule::ProjectDecl => {
                let project = match parse_project_decl(child) {
                    Err(e) => {
                        return Err(e);
                    },
                    Ok(p) => p,
                };
                out.project = Some(project);
            },
            Rule::TableDecl => {
                let table = match parse_table_decl(child) {
                    Err(e) => {
                        return Err(e);
                    },
                    Ok(t) => t,
                };
                push_item(&mut out.tables, table);
            },
            Rule::EnumDecl => {
                let block = match parse_enum_decl(child) {
                    Err(e) => {
                        return Err(e);
                    },
                    Ok(b) => b,
                };
                push_item(&mut out.enums, block);
            },
            Rule::RefDecl => {
                let block = match parse_ref_decl(child) {
                    Err(e) => {
                        return Err(e);
                    },
                    Ok(b) => b,
                };
                push_item(&mut out.refs, block);
            },
            Rule::TableGroupDecl => {
                let group = match parse_table_group_decl(child) {
                    Err(e) => {
                        return Err(e);
                    },
                    Ok(g) => g,
                };
                push_item(&mut out.table_groups, group);
            },
            Rule::Eoi => {},
            _ => {
                return Err(ParseError::UnexpectedRule);
            },
        }
        i += 1;
    }
    Ok(out)
}

/// Reads the description that the parse of a text stands for.
pub fn parse(pairs: &Vec<Pair>) -> (r: Result<SchemaBlock, ParseError>)
    ensures
        match r {
            Ok(s) => parse_spec(pairs@) == Ok::<SchemaBlockView, ParseError>(s@),
            Err(e) => parse_spec(pairs@) == Err::<SchemaBlockView, ParseError>(e),
        },
{
    if pairs.len() == 0 {
        return Err(ParseError::MissingPart);
    }
    match pairs[0].rule {
        Rule::Schema => parse_schema(&pairs[0]),
        _ => Err(ParseError::UnexpectedRule),
    }
}

} // verus!
