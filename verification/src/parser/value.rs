//! Names, texts and literal values in a parse tree.

use crate::ast::table::{Value, ValueView};
use crate::parser::number::{integer_value, parse_integer};
use crate::parser::{Pair, ParseError, Rule};
use crate::text::str_eq;
use vstd::prelude::*;

verus! {

/// The text of the last child with the wanted rule, starting from `text`;
/// any other child is unexpected.
pub open spec fn last_text(
    text: Seq<char>,
    children: Seq<Pair>,
    wanted: Rule,
    from: int,
) -> Result<Seq<char>, ParseError>
    decreases children.len() - from,
{
    if from < 0 || from >= children.len() {
        Ok(text)
    } else if children[from].rule == wanted {
        last_text(children[from].text@, children, wanted, from + 1)
    } else {
        Err(ParseError::UnexpectedRule)
    }
}

/// The text between the quotes of a quoted string.
pub open spec fn quoted_text(text: Seq<char>, pair: Pair) -> Result<Seq<char>, ParseError> {
    match pair.rule {
        Rule::TripleQuotedString => last_text(text, pair.inner@, Rule::TripleQuotedValue, 0),
        Rule::SingleQuotedString => last_text(text, pair.inner@, Rule::SingleQuotedValue, 0),
        _ => Err(ParseError::UnexpectedRule),
    }
}

/// The text of the last of the quoted strings from `from` on.
pub open spec fn string_value_from(text: Seq<char>, children: Seq<Pair>, from: int) -> Result<
    Seq<char>,
    ParseError,
>
    decreases children.len() - from,
{
    if from < 0 || from >= children.len() {
        Ok(text)
    } else {
        match quoted_text(text, children[from]) {
            Err(e) => Err(e),
            Ok(next) => string_value_from(next, children, from + 1),
        }
    }
}

/// The text of a string value: that of the last quoted string in it, empty
/// if there is none.
pub open spec fn string_value(pair: Pair) -> Result<Seq<char>, ParseError> {
    string_value_from(Seq::empty(), pair.inner@, 0)
}

/// Reads the text of the last child with the wanted rule.
pub fn parse_last_text(text: String, children: &Vec<Pair>, wanted: Rule) -> (r: Result<
    String,
    ParseError,
>)
    ensures
        match r {
            Ok(t) => last_text(text@, children@, wanted, 0) == Ok::<Seq<char>, ParseError>(t@),
            Err(e) => last_text(text@, children@, wanted, 0) == Err::<Seq<char>, ParseError>(e),
        },
{
    let mut out = text;
    let mut i: usize = 0;
    while i < children.len()
        invariant
            i <= children.len(),
            last_text(text@, children@, wanted, 0) == last_text(out@, children@, wanted, i as int),
        decreases children.len() - i,
    {
        if children[i].rule == wanted {
            out = children[i].text.clone();
        } else {
            return Err(ParseError::UnexpectedRule);
        }
        i += 1;
    }
    Ok(out)
}

/// Reads the text of a string value.
pub fn parse_string_value(pair: &Pair) -> (r: Result<String, ParseError>)
    ensures
        match r {
            Ok(t) => string_value(*pair) == Ok::<Seq<char>, ParseError>(t@),
            Err(e) => string_value(*pair) == Err::<Seq<char>, ParseError>(e),
        },
{
    let mut out = String::new();
    let mut i: usize = 0;
    while i < pair.inner.len()
        invariant
            i <= pair.inner.len(),
            string_value(*pair) == string_value_from(out@, pair.inner@, i as int),
        decreases pair.inner.len() - i,
    {
        let child = &pair.inner[i];
        let found = match child.rule {
            Rule::TripleQuotedString => parse_last_text(out, &child.inner, Rule::TripleQuotedValue),
            Rule::SingleQuotedString => parse_last_text(out, &child.inner, Rule::SingleQuotedValue),
            _ => Err(ParseError::UnexpectedRule),
        };
        out = match found {
            Err(e) => {
                return Err(e);
            },
            Ok(t) => t,
        };
        i += 1;
    }
    Ok(out)
}

/// The value so far after one more child of a number: a decimal, kept as
/// its text, or an integer.
pub open spec fn number_step(child: Pair) -> Result<Option<ValueView>, ParseError> {
    match child.rule {
        Rule::Decimal => Ok(Some(ValueView::Decimal(child.text@))),
        Rule::Integer => match integer_value(child.text@) {
            Some(n) => Ok(Some(ValueView::Integer(n))),
            None => Err(ParseError::InvalidNumber),
        },
        _ => Err(ParseError::UnexpectedRule),
    }
}

/// The value so far after the children of a number from `from` on.
pub open spec fn number_from(out: Option<ValueView>, children: Seq<Pair>, from: int) -> Result<
    Option<ValueView>,
    ParseError,
>
    decreases children.len() - from,
{
    if from < 0 || from >= children.len() {
        Ok(out)
    } else {
        match number_step(children[from]) {
            Err(e) => Err(e),
            Ok(next) => number_from(next, children, from + 1),
        }
    }
}

/// The value that a word stands for.
pub open spec fn word_step(child: Pair) -> Result<Option<ValueView>, ParseError> {
    if child.text@ == "true"@ {
        Ok(Some(ValueView::Bool(true)))
    } else if child.text@ == "false"@ {
        Ok(Some(ValueView::Bool(false)))
    } else if child.text@ == "null"@ {
        Ok(Some(ValueView::Null))
    } else {
        Err(ParseError::UnknownWord)
    }
}

/// The value so far after the children of a word from `from` on.
pub open spec fn word_from(out: Option<ValueView>, children: Seq<Pair>, from: int) -> Result<
    Option<ValueView>,
    ParseError,
>
    decreases children.len() - from,
{
    if from < 0 || from >= children.len() {
        Ok(out)
    } else {
        match word_step(children[from]) {
            Err(e) => Err(e),
            Ok(next) => word_from(next, children, from + 1),
        }
    }
}

/// The value so far after one more child of a value: a string, a number or
/// a word.
pub open spec fn value_step(out: Option<ValueView>, child: Pair) -> Result<
    Option<ValueView>,
    ParseError,
> {
    match child.rule {
        Rule::StringValue => match string_value(child) {
            Ok(text) => Ok(Some(ValueView::String(text))),
            Err(e) => Err(e),
        },
        Rule::NumberValue => number_from(out, child.inner@, 0),
        Rule::BooleanValue => word_from(out, child.inner@, 0),
        _ => Err(ParseError::UnexpectedRule),
    }
}

/// The value so far after the children of a value from `from` on.
pub open spec fn value_from(out: Option<ValueView>, children: Seq<Pair>, from: int) -> Result<
    Option<ValueView>,
    ParseError,
>
    decreases children.len() - from,
{
    if from < 0 || from >= children.len() {
        Ok(out)
    } else {
        match value_step(out, children[from]) {
            Err(e) => Err(e),
            Ok(next) => value_from(next, children, from + 1),
        }
    }
}

/// The literal value that a node stands for: the last that its children
/// give; one at least is needed.
pub open spec fn value_of(pair: Pair) -> Result<ValueView, ParseError> {
    match value_from(None, pair.inner@, 0) {
        Err(e) => Err(e),
        Ok(Some(v)) => Ok(v),
        Ok(None) => Err(ParseError::MissingPart),
    }
}

/// The value that a child of a number stands for.
fn parse_number_part(child: &Pair) -> (r: Result<Option<Value>, ParseError>)
    ensures
        match r {
            Ok(v) => number_step(*child) == Ok::<Option<ValueView>, ParseError>(v.deep_view()),
            Err(e) => number_step(*child) == Err::<Option<ValueView>, ParseError>(e),
        },
{
    match child.rule {
        Rule::Decimal => Ok(Some(Value::Decimal(child.text.clone()))),
        Rule::Integer => match parse_integer(child.text.as_str()) {
            Some(n) => Ok(Some(Value::Integer(n))),
            None => Err(ParseError::InvalidNumber),
        },
        _ => Err(ParseError::UnexpectedRule),
    }
}

/// The value that a word stands for.
fn parse_word(child: &Pair) -> (r: Result<Option<Value>, ParseError>)
    ensures
        match r {
            Ok(v) => word_step(*child) == Ok::<Option<ValueView>, ParseError>(v.deep_view()),
            Err(e) => word_step(*child) == Err::<Option<ValueView>, ParseError>(e),
        },
{
    if str_eq(child.text.as_str(), "true") {
        Ok(Some(Value::Bool(true)))
    } else if str_eq(child.text.as_str(), "false") {
        Ok(Some(Value::Bool(false)))
    } else if str_eq(child.text.as_str(), "null") {
        Ok(Some(Value::Null))
    } else {
        Err(ParseError::UnknownWord)
    }
}

/// The value so far after the children of a number or of a word.
fn parse_value_parts(out: Option<Value>, children: &Vec<Pair>, number: bool) -> (r: Result<
    Option<Value>,
    ParseError,
>)
    ensures
        match r {
            Ok(v) => (if number {
                number_from(out.deep_view(), children@, 0)
            } else {
                word_from(out.deep_view(), children@, 0)
            }) == Ok::<Option<ValueView>, ParseError>(v.deep_view()),
            Err(e) => (if number {
                number_from(out.deep_view(), children@, 0)
            } else {
                word_from(out.deep_view(), children@, 0)
            }) == Err::<Option<ValueView>, ParseError>(e),
        },
{
    let mut current = out;
    let mut i: usize = 0;
    while i < children.len()
        invariant
            i <= children.len(),
            number ==> number_from(out.deep_view(), children@, 0) == number_from(
                current.deep_view(),
                children@,
                i as int,
            ),
            !number ==> word_from(out.deep_view(), children@, 0) == word_from(
                current.deep_view(),
                children@,
                i as int,
            ),
        decreases children.len() - i,
    {
        let found = if number {
            parse_number_part(&children[i])
        } else {
            parse_word(&children[i])
        };
        current = match found {
            Err(e) => {
                return Err(e);
            },
            Ok(v) => v,
        };
        i += 1;
    }
    Ok(current)
}

/// Reads a literal value.
pub fn parse_value(pair: &Pair) -> (r: Result<Value, ParseError>)
    ensures
        match r {
            Ok(v) => value_of(*pair) == Ok::<ValueView, ParseError>(v@),
            Err(e) => value_of(*pair) == Err::<ValueView, ParseError>(e),
        },
{
    let mut out: Option<Value> = None;
    let mut i: usize = 0;
    while i < pair.inner.len()
        invariant
            i <= pair.inner.len(),
            value_from(None, pair.inner@, 0) == value_from(out.deep_view(), pair.inner@, i as int),
        decreases pair.inner.len() - i,
    {
        let child = &pair.inner[i];
        let found = match child.rule {
            Rule::StringValue => match parse_string_value(child) {
                Ok(text) => Ok(Some(Value::String(text))),
                Err(e) => Err(e),
            },
            Rule::NumberValue => parse_value_parts(out, &child.inner, true),
            Rule::BooleanValue => parse_value_parts(out, &child.inner, false),
            _ => Err(ParseError::UnexpectedRule),
        };
        out = match found {
            Err(e) => {
                return Err(e);
            },
            Ok(v) => v,
        };
        i += 1;
    }
    match out {
        Some(v) => Ok(v),
        None => Err(ParseError::MissingPart),
    }
}

/// The names among the children from `from` on, added to those so far; any
/// child that is no name is unexpected.
pub open spec fn idents_from(names: Seq<Seq<char>>, children: Seq<Pair>, from: int) -> Result<
    Seq<Seq<char>>,
    ParseError,
>
    decreases children.len() - from,
{
    if from < 0 || from >= children.len() {
        Ok(names)
    } else if children[from].rule == Rule::Ident {
        idents_from(names.push(children[from].text@), children, from + 1)
    } else {
        Err(ParseError::UnexpectedRule)
    }
}

/// A name with an optional schema before it, made of one or two parts.
pub open spec fn qualified(parts: Seq<Seq<char>>) -> Result<
    (Option<Seq<char>>, Seq<char>),
    ParseError,
> {
    if parts.len() == 2 {
        Ok((Some(parts[0]), parts[1]))
    } else if parts.len() == 1 {
        Ok((None, parts[0]))
    } else {
        Err(ParseError::MalformedIdent)
    }
}

/// The name that a declaration gives, with its schema if it gives one.
pub open spec fn decl_ident(pair: Pair) -> Result<(Option<Seq<char>>, Seq<char>), ParseError> {
    match idents_from(Seq::empty(), pair.inner@, 0) {
        Err(e) => Err(e),
        Ok(parts) => qualified(parts),
    }
}

/// Reads the names among the children and adds them to those so far.
pub fn parse_idents(names: Vec<String>, children: &Vec<Pair>) -> (r: Result<
    Vec<String>,
    ParseError,
>)
    ensures
        match r {
            Ok(v) => idents_from(names.deep_view(), children@, 0) == Ok::<
                Seq<Seq<char>>,
                ParseError,
            >(v.deep_view()),
            Err(e) => idents_from(names.deep_view(), children@, 0) == Err::<
                Seq<Seq<char>>,
                ParseError,
            >(e),
        },
{
    let mut out = names;
    let mut i: usize = 0;
    while i < children.len()
        invariant
            i <= children.len(),
            idents_from(names.deep_view(), children@, 0) == idents_from(
                out.deep_view(),
                children@,
                i as int,
            ),
        decreases children.len() - i,
    {
        if children[i].rule == Rule::Ident {
            crate::text::push_text(&mut out, children[i].text.clone());
        } else {
            return Err(ParseError::UnexpectedRule);
        }
        i += 1;
    }
    Ok(out)
}

/// A name with an optional schema before it, made of one or two parts.
pub fn qualified_name(parts: &Vec<String>) -> (r: Result<(Option<String>, String), ParseError>)
    ensures
        match r {
            Ok(n) => qualified(parts.deep_view()) == Ok::<
                (Option<Seq<char>>, Seq<char>),
                ParseError,
            >((n.0.deep_view(), n.1@)),
            Err(e) => qualified(parts.deep_view()) == Err::<
                (Option<Seq<char>>, Seq<char>),
                ParseError,
            >(e),
        },
{
    if parts.len() == 2 {
        assert(parts.deep_view()[0] == parts[0]@);
        assert(parts.deep_view()[1] == parts[1]@);
        Ok((Some(parts[0].clone()), parts[1].clone()))
    } else if parts.len() == 1 {
        assert(parts.deep_view()[0] == parts[0]@);
        Ok((None, parts[0].clone()))
    } else {
        Err(ParseError::MalformedIdent)
    }
}

/// Reads the name that a declaration gives, with its schema if it gives one.
pub fn parse_decl_ident(pair: &Pair) -> (r: Result<(Option<String>, String), ParseError>)
    ensures
        match r {
            Ok(n) => decl_ident(*pair) == Ok::<(Option<Seq<char>>, Seq<char>), ParseError>(
                (n.0.deep_view(), n.1@),
            ),
            Err(e) => decl_ident(*pair) == Err::<(Option<Seq<char>>, Seq<char>), ParseError>(e),
        },
{
    let none: Vec<String> = Vec::new();
    assert(none.deep_view() =~= Seq::empty());
    match parse_idents(none, &pair.inner) {
        Err(e) => Err(e),
        Ok(parts) => qualified_name(&parts),
    }
}

/// The text of the last of the string values from `from` on; any child
/// that is no string value is unexpected.
pub open spec fn note_from(text: Seq<char>, children: Seq<Pair>, from: int) -> Result<
    Seq<char>,
    ParseError,
>
    decreases children.len() - from,
{
    if from < 0 || from >= children.len() {
        Ok(text)
    } else if children[from].rule == Rule::StringValue {
        match string_value(children[from]) {
            Err(e) => Err(e),
            Ok(next) => note_from(next, children, from + 1),
        }
    } else {
        Err(ParseError::UnexpectedRule)
    }
}

/// The text of a note that stands with what it is about.
pub open spec fn note_inline(pair: Pair) -> Result<Seq<char>, ParseError> {
    note_from(Seq::empty(), pair.inner@, 0)
}

/// The text of the last of the notes, short or long, from `from` on.
pub open spec fn note_decl_from(text: Seq<char>, children: Seq<Pair>, from: int) -> Result<
    Seq<char>,
    ParseError,
>
    decreases children.len() - from,
{
    if from < 0 || from >= children.len() {
        Ok(text)
    } else if children[from].rule == Rule::NoteShort || children[from].rule == Rule::NoteBlock {
        match note_from(text, children[from].inner@, 0) {
            Err(e) => Err(e),
            Ok(next) => note_decl_from(next, children, from + 1),
        }
    } else {
        Err(ParseError::UnexpectedRule)
    }
}

/// The text of a note that is declared on its own.
pub open spec fn note_decl(pair: Pair) -> Result<Seq<char>, ParseError> {
    note_decl_from(Seq::empty(), pair.inner@, 0)
}

/// Reads the text of the last of the string values among the children.
pub fn parse_note_text(text: String, children: &Vec<Pair>) -> (r: Result<String, ParseError>)
    ensures
        match r {
            Ok(t) => note_from(text@, children@, 0) == Ok::<Seq<char>, ParseError>(t@),
            Err(e) => note_from(text@, children@, 0) == Err::<Seq<char>, ParseError>(e),
        },
{
    let mut out = text;
    let mut i: usize = 0;
    while i < children.len()
        invariant
            i <= children.len(),
            note_from(text@, children@, 0) == note_from(out@, children@, i as int),
        decreases children.len() - i,
    {
        if children[i].rule == Rule::StringValue {
            out = match parse_string_value(&children[i]) {
                Err(e) => {
                    return Err(e);
                },
                Ok(t) => t,
            };
        } else {
            return Err(ParseError::UnexpectedRule);
        }
        i += 1;
    }
    Ok(out)
}

/// Reads the text of a note that stands with what it is about.
pub fn parse_note_inline(pair: &Pair) -> (r: Result<String, ParseError>)
    ensures
        match r {
            Ok(t) => note_inline(*pair) == Ok::<Seq<char>, ParseError>(t@),
            Err(e) => note_inline(*pair) == Err::<Seq<char>, ParseError>(e),
        },
{
    parse_note_text(String::new(), &pair.inner)
}

/// Reads the text of a note that is declared on its own.
pub fn parse_note_decl(pair: &Pair) -> (r: Result<String, ParseError>)
    ensures
        match r {
            Ok(t) => note_decl(*pair) == Ok::<Seq<char>, ParseError>(t@),
            Err(e) => note_decl(*pair) == Err::<Seq<char>, ParseError>(e),
        },
{
    let mut out = String::new();
    let mut i: usize = 0;
    while i < pair.inner.len()
        invariant
            i <= pair.inner.len(),
            note_decl(*pair) == note_decl_from(out@, pair.inner@, i as int),
        decreases pair.inner.len() - i,
    {
        let child = &pair.inner[i];
        match child.rule {
            Rule::NoteShort | Rule::NoteBlock => {
                out = match parse_note_text(out, &child.inner) {
                    Err(e) => {
                        return Err(e);
                    },
                    Ok(t) => t,
                };
            },
            _ => {
                return Err(ParseError::UnexpectedRule);
            },
        }
        i += 1;
    }
    Ok(out)
}

} // verus!
