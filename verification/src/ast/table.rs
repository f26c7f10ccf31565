//! Tables and their columns.

use crate::ast::indexes::{IndexesBlock, IndexesBlockView};
use crate::ast::refs::{RefBlock, RefBlockView};
use crate::text::{clone_opt_string, decimal_text, integer_text, str_eq};
use vstd::prelude::*;

verus! {

/// Identity of a table: its name, the schema it belongs to and its alias.
#[derive(Debug, PartialEq, Eq, Default)]
pub struct TableIdent {
    pub name: String,
    pub schema: Option<String>,
    pub alias: Option<String>,
}

/// Mathematical model of a [`TableIdent`].
pub struct TableIdentView {
    pub name: Seq<char>,
    pub schema: Option<Seq<char>>,
    pub alias: Option<Seq<char>>,
}

impl View for TableIdent {
    type V = TableIdentView;

    open spec fn view(&self) -> TableIdentView {
        TableIdentView {
            name: self.name@,
            schema: self.schema.deep_view(),
            alias: self.alias.deep_view(),
        }
    }
}

impl DeepView for TableIdent {
    type V = TableIdentView;

    open spec fn deep_view(&self) -> TableIdentView {
        self@
    }
}

impl Clone for TableIdent {
    fn clone(&self) -> (r: Self)
        ensures
            r@ == self@,
    {
        TableIdent {
            name: self.name.clone(),
            schema: clone_opt_string(&self.schema),
            alias: clone_opt_string(&self.alias),
        }
    }
}

/// A literal value. A decimal literal is kept as its text.
#[derive(Debug, PartialEq, Eq)]
pub enum Value {
    String(String),
    Integer(i32),
    Decimal(String),
    Bool(bool),
    Null,
}

/// Mathematical model of a [`Value`].
pub enum ValueView {
    String(Seq<char>),
    Integer(i32),
    Decimal(Seq<char>),
    Bool(bool),
    Null,
}

impl View for Value {
    type V = ValueView;

    open spec fn view(&self) -> ValueView {
        match self {
            Value::String(s) => ValueView::String(s@),
            Value::Integer(i) => ValueView::Integer(*i),
            Value::Decimal(s) => ValueView::Decimal(s@),
            Value::Bool(b) => ValueView::Bool(*b),
            Value::Null => ValueView::Null,
        }
    }
}

impl DeepView for Value {
    type V = ValueView;

    open spec fn deep_view(&self) -> ValueView {
        self@
    }
}

impl Clone for Value {
    fn clone(&self) -> (r: Self)
        ensures
            r@ == self@,
    {
        match self {
            Value::String(s) => Value::String(s.clone()),
            Value::Integer(i) => Value::Integer(*i),
            Value::Decimal(s) => Value::Decimal(s.clone()),
            Value::Bool(b) => Value::Bool(*b),
            Value::Null => Value::Null,
        }
    }
}

impl ValueView {
    /// The value as text: a string as it is, an integer in decimal form, a
    /// decimal as it was written, a truth value and the null value by their
    /// words.
    pub open spec fn text(self) -> Seq<char> {
        match self {
            ValueView::String(s) => s,
            ValueView::Integer(i) => decimal_text(i as int),
            ValueView::Decimal(s) => s,
            ValueView::Bool(b) => if b {
                "true"@
            } else {
                "false"@
            },
            ValueView::Null => "null"@,
        }
    }
}

impl Value {
    /// The value as text.
    pub fn to_string(&self) -> (r: String)
        ensures
            r@ == self@.text(),
    {
        match self {
            Value::String(s) => s.clone(),
            Value::Integer(i) => integer_text(*i),
            Value::Decimal(s) => s.clone(),
            Value::Bool(b) => if *b {
                "true".to_owned()
            } else {
                "false".to_owned()
            },
            Value::Null => "null".to_owned(),
        }
    }
}

/// The type of a column: a raw token before analysis, a scalar kind or a
/// declared enum after it.
#[derive(Debug, PartialEq, Eq, Default)]
pub enum ColumnType {
    /// No type was given.
    #[default]
    Undef,
    /// A type token that has not been resolved yet.
    Raw(String),
    /// A declared enum, by name.
    Enum(String),
    Char,
    VarChar,
    SmallInt,
    Integer,
    BigInt,
    Real,
    DoublePrecision,
    Bool,
    ByteArray,
    Date,
    Text,
    Time,
    Timestamp,
    Timestampz,
    Uuid,
    Json,
    Decimal,
}

/// Mathematical model of a [`ColumnType`].
pub enum ColumnTypeView {
    Undef,
    Raw(Seq<char>),
    Enum(Seq<char>),
    Char,
    VarChar,
    SmallInt,
    Integer,
    BigInt,
    Real,
    DoublePrecision,
    Bool,
    ByteArray,
    Date,
    Text,
    Time,
    Timestamp,
    Timestampz,
    Uuid,
    Json,
    Decimal,
}

impl ColumnTypeView {
    /// Whether the type is one of the scalar kinds.
    pub open spec fn is_scalar(self) -> bool {
        !(self is Undef) && !(self is Raw) && !(self is Enum)
    }

    /// The scalar kind that a type token names, if any.
    pub open spec fn of_token(token: Seq<char>) -> Option<ColumnTypeView> {
        if token == "char"@ {
            Some(ColumnTypeView::Char)
        } else if token == "varchar"@ {
            Some(ColumnTypeView::VarChar)
        } else if token == "smallint"@ || token == "int2"@ {
            Some(ColumnTypeView::SmallInt)
        } else if token == "integer"@ || token == "int"@ || token == "int4"@ {
            Some(ColumnTypeView::Integer)
        } else if token == "bigint"@ || token == "int8"@ {
            Some(ColumnTypeView::BigInt)
        } else if token == "real"@ || token == "float4"@ {
            Some(ColumnTypeView::Real)
        } else if token == "float8"@ {
            Some(ColumnTypeView::DoublePrecision)
        } else if token == "bool"@ || token == "boolean"@ {
            Some(ColumnTypeView::Bool)
        } else if token == "bytea"@ {
            Some(ColumnTypeView::ByteArray)
        } else if token == "date"@ {
            Some(ColumnTypeView::Date)
        } else if token == "text"@ {
            Some(ColumnTypeView::Text)
        } else if token == "time"@ {
            Some(ColumnTypeView::Time)
        } else if token == "timestamp"@ {
            Some(ColumnTypeView::Timestamp)
        } else if token == "timestampz"@ {
            Some(ColumnTypeView::Timestampz)
        } else if token == "uuid"@ {
            Some(ColumnTypeView::Uuid)
        } else if token == "json"@ {
            Some(ColumnTypeView::Json)
        } else if token == "decimal"@ || token == "numeric"@ {
            Some(ColumnTypeView::Decimal)
        } else {
            None
        }
    }
}

impl View for ColumnType {
    type V = ColumnTypeView;

    open spec fn view(&self) -> ColumnTypeView {
        match self {
            ColumnType::Undef => ColumnTypeView::Undef,
            ColumnType::Raw(s) => ColumnTypeView::Raw(s@),
            ColumnType::Enum(s) => ColumnTypeView::Enum(s@),
            ColumnType::Char => ColumnTypeView::Char,
            ColumnType::VarChar => ColumnTypeView::VarChar,
            ColumnType::SmallInt => ColumnTypeView::SmallInt,
            ColumnType::Integer => ColumnTypeView::Integer,
            ColumnType::BigInt => ColumnTypeView::BigInt,
            ColumnType::Real => ColumnTypeView::Real,
            ColumnType::DoublePrecision => ColumnTypeView::DoublePrecision,
            ColumnType::Bool => ColumnTypeView::Bool,
            ColumnType::ByteArray => ColumnTypeView::ByteArray,
            ColumnType::Date => ColumnTypeView::Date,
            ColumnType::Text => ColumnTypeView::Text,
            ColumnType::Time => ColumnTypeView::Time,
            ColumnType::Timestamp => ColumnTypeView::Timestamp,
            ColumnType::Timestampz => ColumnTypeView::Timestampz,
            ColumnType::Uuid => ColumnTypeView::Uuid,
            ColumnType::Json => ColumnTypeView::Json,
            ColumnType::Decimal => ColumnTypeView::Decimal,
        }
    }
}

impl DeepView for ColumnType {
    type V = ColumnTypeView;

    open spec fn deep_view(&self) -> ColumnTypeView {
        self@
    }
}

impl Clone for ColumnType {
    fn clone(&self) -> (r: Self)
        ensures
            r@ == self@,
    {
        match self {
            ColumnType::Undef => ColumnType::Undef,
            ColumnType::Raw(s) => ColumnType::Raw(s.clone()),
            ColumnType::Enum(s) => ColumnType::Enum(s.clone()),
            ColumnType::Char => ColumnType::Char,
            ColumnType::VarChar => ColumnType::VarChar,
            ColumnType::SmallInt => ColumnType::SmallInt,
            ColumnType::Integer => ColumnType::Integer,
            ColumnType::BigInt => ColumnType::BigInt,
            ColumnType::Real => ColumnType::Real,
            ColumnType::DoublePrecision => ColumnType::DoublePrecision,
            ColumnType::Bool => ColumnType::Bool,
            ColumnType::ByteArray => ColumnType::ByteArray,
            ColumnType::Date => ColumnType::Date,
            ColumnType::Text => ColumnType::Text,
            ColumnType::Time => ColumnType::Time,
            ColumnType::Timestamp => ColumnType::Timestamp,
            ColumnType::Timestampz => ColumnType::Timestampz,
            ColumnType::Uuid => ColumnType::Uuid,
            ColumnType::Json => ColumnType::Json,
            ColumnType::Decimal => ColumnType::Decimal,
        }
    }
}

impl ColumnType {
    /// Reads the token of a scalar kind; `None` for any other text.
    pub fn match_type(value: &str) -> (r: Option<Self>)
        ensures
            r.deep_view() == ColumnTypeView::of_token(value@),
    {
        if str_eq(value, "char") {
            Some(ColumnType::Char)
        } else if str_eq(value, "varchar") {
            Some(ColumnType::VarChar)
        } else if str_eq(value, "smallint") || str_eq(value, "int2") {
            Some(ColumnType::SmallInt)
        } else if str_eq(value, "integer") || str_eq(value, "int") || str_eq(value, "int4") {
            Some(ColumnType::Integer)
        } else if str_eq(value, "bigint") || str_eq(value, "int8") {
            Some(ColumnType::BigInt)
        } else if str_eq(value, "real") || str_eq(value, "float4") {
            Some(ColumnType::Real)
        } else if str_eq(value, "float8") {
            Some(ColumnType::DoublePrecision)
        } else if str_eq(value, "bool") || str_eq(value, "boolean") {
            Some(ColumnType::Bool)
        } else if str_eq(value, "bytea") {
            Some(ColumnType::ByteArray)
        } else if str_eq(value, "date") {
            Some(ColumnType::Date)
        } else if str_eq(value, "text") {
            Some(ColumnType::Text)
        } else if str_eq(value, "time") {
            Some(ColumnType::Time)
        } else if str_eq(value, "timestamp") {
            Some(ColumnType::Timestamp)
        } else if str_eq(value, "timestampz") {
            Some(ColumnType::Timestampz)
        } else if str_eq(value, "uuid") {
            Some(ColumnType::Uuid)
        } else if str_eq(value, "json") {
            Some(ColumnType::Json)
        } else if str_eq(value, "decimal") || str_eq(value, "numeric") {
            Some(ColumnType::Decimal)
        } else {
            None
        }
    }

    /// Whether two types are the same.
    pub fn same_as(&self, other: &ColumnType) -> (r: bool)
        ensures
            r == (self@ == other@),
    {
        match (self, other) {
            (ColumnType::Undef, ColumnType::Undef) => true,
            (ColumnType::Raw(a), ColumnType::Raw(b)) => *a == *b,
            (ColumnType::Enum(a), ColumnType::Enum(b)) => *a == *b,
            (ColumnType::Char, ColumnType::Char) => true,
            (ColumnType::VarChar, ColumnType::VarChar) => true,
            (ColumnType::SmallInt, ColumnType::SmallInt) => true,
            (ColumnType::Integer, ColumnType::Integer) => true,
            (ColumnType::BigInt, ColumnType::BigInt) => true,
            (ColumnType::Real, ColumnType::Real) => true,
            (ColumnType::DoublePrecision, ColumnType::DoublePrecision) => true,
            (ColumnType::Bool, ColumnType::Bool) => true,
            (ColumnType::ByteArray, ColumnType::ByteArray) => true,
            (ColumnType::Date, ColumnType::Date) => true,
            (ColumnType::Text, ColumnType::Text) => true,
            (ColumnType::Time, ColumnType::Time) => true,
            (ColumnType::Timestamp, ColumnType::Timestamp) => true,
            (ColumnType::Timestampz, ColumnType::Timestampz) => true,
            (ColumnType::Uuid, ColumnType::Uuid) => true,
            (ColumnType::Json, ColumnType::Json) => true,
            (ColumnType::Decimal, ColumnType::Decimal) => true,
            _ => false,
        }
    }
}

/// Settings of a column.
#[derive(Debug, PartialEq, Eq, Default)]
pub struct ColumnSettings {
    pub is_pk: bool,
    pub is_unique: bool,
    pub is_nullable: bool,
    pub is_incremental: bool,
    pub is_array: bool,
    pub note: Option<String>,
    pub default: Option<Value>,
    pub refs: Vec<RefBlock>,
}

/// Mathematical model of [`ColumnSettings`].
pub struct ColumnSettingsView {
    pub is_pk: bool,
    pub is_unique: bool,
    pub is_nullable: bool,
    pub is_incremental: bool,
    pub is_array: bool,
    pub note: Option<Seq<char>>,
    pub default: Option<ValueView>,
    pub refs: Seq<RefBlockView>,
}

impl View for ColumnSettings {
    type V = ColumnSettingsView;

    open spec fn view(&self) -> ColumnSettingsView {
        ColumnSettingsView {
            is_pk: self.is_pk,
            is_unique: self.is_unique,
            is_nullable: self.is_nullable,
            is_incremental: self.is_incremental,
            is_array: self.is_array,
            note: self.note.deep_view(),
            default: self.default.deep_view(),
            refs: self.refs.deep_view(),
        }
    }
}

impl DeepView for ColumnSettings {
    type V = ColumnSettingsView;

    open spec fn deep_view(&self) -> ColumnSettingsView {
        self@
    }
}

impl Clone for ColumnSettings {
    fn clone(&self) -> (r: Self)
        ensures
            r@ == self@,
    {
        let default = match &self.default {
            Some(v) => Some(v.clone()),
            None => None,
        };
        let refs = self.refs.clone();
        assert(refs.deep_view() =~= self.refs.deep_view());
        ColumnSettings {
            is_pk: self.is_pk,
            is_unique: self.is_unique,
            is_nullable: self.is_nullable,
            is_incremental: self.is_incremental,
            is_array: self.is_array,
            note: clone_opt_string(&self.note),
            default,
            refs,
        }
    }
}

/// A column of a table.
#[derive(Debug, PartialEq, Eq, Default)]
pub struct TableColumn {
    pub name: String,
    pub col_type: ColumnType,
    pub args: Vec<Value>,
    pub settings: ColumnSettings,
}

/// Mathematical model of a [`TableColumn`].
pub struct TableColumnView {
    pub name: Seq<char>,
    pub col_type: ColumnTypeView,
    pub args: Seq<ValueView>,
    pub settings: ColumnSettingsView,
}

impl View for TableColumn {
    type V = TableColumnView;

    open spec fn view(&self) -> TableColumnView {
        TableColumnView {
            name: self.name@,
            col_type: self.col_type@,
            args: self.args.deep_view(),
            settings: self.settings@,
        }
    }
}

impl DeepView for TableColumn {
    type V = TableColumnView;

    open spec fn deep_view(&self) -> TableColumnView {
        self@
    }
}

impl Clone for TableColumn {
    fn clone(&self) -> (r: Self)
        ensures
            r@ == self@,
    {
        let args = self.args.clone();
        assert(args.deep_view() =~= self.args.deep_view());
        TableColumn {
            name: self.name.clone(),
            col_type: self.col_type.clone(),
            args,
            settings: self.settings.clone(),
        }
    }
}

/// A table: its identity, its columns in declaration order, its note and its
/// index block.
#[derive(Debug, PartialEq, Eq, Default)]
pub struct TableBlock {
    pub cols: Vec<TableColumn>,
    pub ident: TableIdent,
    pub note: Option<String>,
    pub indexes: Option<IndexesBlock>,
}

/// Mathematical model of a [`TableBlock`].
pub struct TableBlockView {
    pub cols: Seq<TableColumnView>,
    pub ident: TableIdentView,
    pub note: Option<Seq<char>>,
    pub indexes: Option<IndexesBlockView>,
}

impl TableBlockView {
    /// The names of the columns, in declaration order.
    pub open spec fn column_names(self) -> Seq<Seq<char>> {
        Seq::new(self.cols.len(), |i: int| self.cols[i].name)
    }
}

impl View for TableBlock {
    type V = TableBlockView;

    open spec fn view(&self) -> TableBlockView {
        TableBlockView {
            cols: self.cols.deep_view(),
            ident: self.ident@,
            note: self.note.deep_view(),
            indexes: self.indexes.deep_view(),
        }
    }
}

impl DeepView for TableBlock {
    type V = TableBlockView;

    open spec fn deep_view(&self) -> TableBlockView {
        self@
    }
}

impl Clone for TableBlock {
    fn clone(&self) -> (r: Self)
        ensures
            r@ == self@,
    {
        let cols = self.cols.clone();
        assert(cols.deep_view() =~= self.cols.deep_view());
        let indexes = match &self.indexes {
            Some(b) => Some(b.clone()),
            None => None,
        };
        TableBlock {
            cols,
            ident: self.ident.clone(),
            note: clone_opt_string(&self.note),
            indexes,
        }
    }
}

} // verus!
