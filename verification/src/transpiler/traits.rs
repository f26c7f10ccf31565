//! How a column's type is written in generated code.

use crate::ast::table::{ColumnType, ColumnTypeView, TableColumn, TableColumnView, Value, ValueView};
use crate::casing::{pascal_case, to_pascal_case};
use crate::text::{join, joined};
use vstd::prelude::*;
use vstd::string::StringExecFns;

verus! {

/// The Rust type of a scalar kind.
pub open spec fn scalar_rust_type(kind: ColumnTypeView) -> Option<Seq<char>> {
    match kind {
        ColumnTypeView::Char => Some("String"@),
        ColumnTypeView::VarChar => Some("String"@),
        ColumnTypeView::SmallInt => Some("i16"@),
        ColumnTypeView::Integer => Some("i32"@),
        ColumnTypeView::BigInt => Some("i64"@),
        ColumnTypeView::Real => Some("f32"@),
        ColumnTypeView::DoublePrecision => Some("f64"@),
        ColumnTypeView::Bool => Some("bool"@),
        ColumnTypeView::ByteArray => Some("Vec<u8>"@),
        ColumnTypeView::Date => Some("Date"@),
        ColumnTypeView::Text => Some("String"@),
        ColumnTypeView::Time => Some("Time"@),
        ColumnTypeView::Timestamp => Some("DateTime"@),
        ColumnTypeView::Timestampz => Some("DateTimeWithTimeZone"@),
        ColumnTypeView::Uuid => Some("Uuid"@),
        ColumnTypeView::Json => Some("Json"@),
        ColumnTypeView::Decimal => Some("Decimal"@),
        _ => None,
    }
}

/// The Rust type of an enum whose name in Pascal case is given: the enum
/// stands one module up.
pub open spec fn enum_rust_type_spec(pascal_name: Seq<char>) -> Seq<char> {
    "super::"@ + pascal_name
}

/// The Rust type of a resolved column type; none for an unresolved one.
pub open spec fn rust_type_of(col_type: ColumnTypeView) -> Option<Seq<char>> {
    match col_type {
        ColumnTypeView::Enum(name) => Some(enum_rust_type_spec(pascal_case(name))),
        _ => scalar_rust_type(col_type),
    }
}

/// The Rust type of a column: that of its type, in a `Vec` if the column is
/// an array.
pub open spec fn column_rust_type(column: TableColumnView) -> Option<Seq<char>> {
    match rust_type_of(column.col_type) {
        Some(t) => Some(
            if column.settings.is_array {
                "Vec<"@ + t + ">"@
            } else {
                t
            },
        ),
        None => None,
    }
}

/// The texts of the values.
pub open spec fn value_texts(args: Seq<ValueView>) -> Seq<Seq<char>> {
    Seq::new(args.len(), |i: int| args[i].text())
}

/// The arguments of a type as an optional value: none, one, or a tuple.
pub open spec fn type_args_text(args: Seq<ValueView>) -> Seq<char> {
    if args.len() == 0 {
        "None"@
    } else if args.len() == 1 {
        "Some("@ + joined(value_texts(args), ", "@) + ")"@
    } else {
        "Some(("@ + joined(value_texts(args), ", "@) + "))"@
    }
}

/// The column type of a scalar kind with the given arguments; none for an
/// enum or an unresolved type.
pub open spec fn col_type_of(kind: ColumnTypeView, args: Seq<ValueView>) -> Option<Seq<char>> {
    match kind {
        ColumnTypeView::Char => Some("Char("@ + type_args_text(args) + ")"@),
        ColumnTypeView::VarChar => Some("String("@ + type_args_text(args) + ")"@),
        ColumnTypeView::SmallInt => Some("SmallInteger"@),
        ColumnTypeView::Integer => Some("Integer"@),
        ColumnTypeView::BigInt => Some("BigInteger"@),
        ColumnTypeView::Real => Some("Float"@),
        ColumnTypeView::DoublePrecision => Some("Double"@),
        ColumnTypeView::Bool => Some("Boolean"@),
        ColumnTypeView::ByteArray => Some("Binary"@),
        ColumnTypeView::Date => Some("Date"@),
        ColumnTypeView::Text => Some("Text"@),
        ColumnTypeView::Time => Some("Time"@),
        ColumnTypeView::Timestamp => Some("DateTime"@),
        ColumnTypeView::Timestampz => Some("TimestampWithTimeZone"@),
        ColumnTypeView::Uuid => Some("Uuid"@),
        ColumnTypeView::Json => Some("Json"@),
        ColumnTypeView::Decimal => Some("Decimal("@ + type_args_text(args) + ")"@),
        _ => None,
    }
}

/// The column type of a column: that of its type, as an array if the column
/// is one.
pub open spec fn column_col_type(column: TableColumnView) -> Option<Seq<char>> {
    match col_type_of(column.col_type, column.args) {
        Some(t) => Some(
            if column.settings.is_array {
                "Array<Arc<"@ + t + ">>"@
            } else {
                t
            },
        ),
        None => None,
    }
}

/// What has a Rust type in generated code.
pub trait ToRustType {
    /// The Rust type, if there is one.
    spec fn rust_type(&self) -> Option<Seq<char>>;

    /// The Rust type, if there is one.
    fn to_rust_type(&self) -> (r: Option<String>)
        ensures
            r.deep_view() == self.rust_type(),
    ;
}

/// What has a column type in generated code.
pub trait ToColType {
    /// The column type, if there is one.
    spec fn col_type(&self) -> Option<Seq<char>>;

    /// The column type, if there is one.
    fn to_col_type(&self) -> (r: Option<String>)
        ensures
            r.deep_view() == self.col_type(),
    ;
}

/// The Rust type of an enum whose name in Pascal case is given.
pub fn enum_rust_type(pascal_name: &str) -> (r: String)
    ensures
        r@ == enum_rust_type_spec(pascal_name@),
{
    let mut out = "super::".to_owned();
    out.append(pascal_name);
    out
}

/// The Rust type of a scalar kind.
pub fn scalar_rust_type_name(kind: &ColumnType) -> (r: Option<&'static str>)
    ensures
        r.deep_view() == scalar_rust_type(kind@),
{
    match kind {
        ColumnType::Char => Some("String"),
        ColumnType::VarChar => Some("String"),
        ColumnType::SmallInt => Some("i16"),
        ColumnType::Integer => Some("i32"),
        ColumnType::BigInt => Some("i64"),
        ColumnType::Real => Some("f32"),
        ColumnType::DoublePrecision => Some("f64"),
        ColumnType::Bool => Some("bool"),
        ColumnType::ByteArray => Some("Vec<u8>"),
        ColumnType::Date => Some("Date"),
        ColumnType::Text => Some("String"),
        ColumnType::Time => Some("Time"),
        ColumnType::Timestamp => Some("DateTime"),
        ColumnType::Timestampz => Some("DateTimeWithTimeZone"),
        ColumnType::Uuid => Some("Uuid"),
        ColumnType::Json => Some("Json"),
        ColumnType::Decimal => Some("Decimal"),
        _ => None,
    }
}

impl ToRustType for TableColumn {
    open spec fn rust_type(&self) -> Option<Seq<char>> {
        column_rust_type(self@)
    }

    fn to_rust_type(&self) -> (r: Option<String>) {
        let plain = match &self.col_type {
            ColumnType::Enum(name) => {
                let pascal = to_pascal_case(name.as_str());
                Some(enum_rust_type(pascal.as_str()))
            },
            other => match scalar_rust_type_name(other) {
                Some(name) => Some(name.to_owned()),
                None => None,
            },
        };
        match plain {
            Some(t) => {
                if self.settings.is_array {
                    let mut out = "Vec<".to_owned();
                    out.append(t.as_str());
                    out.append(">");
                    Some(out)
                } else {
                    Some(t)
                }
            },
            None => None,
        }
    }
}

/// The arguments of a type as an optional value.
pub fn type_args(args: &Vec<Value>) -> (r: String)
    ensures
        r@ == type_args_text(args.deep_view()),
{
    let mut texts: Vec<String> = Vec::new();
    let mut i: usize = 0;
    while i < args.len()
        invariant
            i <= args.len(),
            texts.len() == i,
            forall|j: int| 0 <= j < i ==> (#[trigger] texts[j])@ == args[j]@.text(),
        decreases args.len() - i,
    {
        texts.push(args[i].to_string());
        i += 1;
    }
    assert(texts.deep_view() =~= value_texts(args.deep_view()));
    let inner = join(&texts, ", ");
    if args.len() == 0 {
        "None".to_owned()
    } else if args.len() == 1 {
        let mut out = "Some(".to_owned();
        out.append(inner.as_str());
        out.append(")");
        out
    } else {
        let mut out = "Some((".to_owned();
        out.append(inner.as_str());
        out.append("))");
        out
    }
}

impl ToColType for TableColumn {
    open spec fn col_type(&self) -> Option<Seq<char>> {
        column_col_type(self@)
    }

    fn to_col_type(&self) -> (r: Option<String>) {
        let plain = match &self.col_type {
            ColumnType::Char => {
                let mut out = "Char(".to_owned();
                out.append(type_args(&self.args).as_str());
                out.append(")");
                Some(out)
            },
            ColumnType::VarChar => {
                let mut out = "String(".to_owned();
                out.append(type_args(&self.args).as_str());
                out.append(")");
                Some(out)
            },
            ColumnType::SmallInt => Some("SmallInteger".to_owned()),
            ColumnType::Integer => Some("Integer".to_owned()),
            ColumnType::BigInt => Some("BigInteger".to_owned()),
            ColumnType::Real => Some("Float".to_owned()),
            ColumnType::DoublePrecision => Some("Double".to_owned()),
            ColumnType::Bool => Some("Boolean".to_owned()),
            ColumnType::ByteArray => Some("Binary".to_owned()),
            ColumnType::Date => Some("Date".to_owned()),
            ColumnType::Text => Some("Text".to_owned()),
            ColumnType::Time => Some("Time".to_owned()),
            ColumnType::Timestamp => Some("DateTime".to_owned()),
            ColumnType::Timestampz => Some("TimestampWithTimeZone".to_owned()),
            ColumnType::Uuid => Some("Uuid".to_owned()),
            ColumnType::Json => Some("Json".to_owned()),
            ColumnType::Decimal => {
                let mut out = "Decimal(".to_owned();
                out.append(type_args(&self.args).as_str());
                out.append(")");
                Some(out)
            },
            _ => None,
        };
        match plain {
            Some(t) => {
                if self.settings.is_array {
                    let mut out = "Array<Arc<".to_owned();
                    out.append(t.as_str());
                    out.append(">>");
                    Some(out)
                } else {
                    Some(t)
                }
            },
            None => None,
        }
    }
}

} // verus!
