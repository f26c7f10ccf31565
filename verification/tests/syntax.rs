use sea_orm_dbml::ast::refs::{Relation, RelationAction};
use sea_orm_dbml::ast::schema::SchemaBlock;
use sea_orm_dbml::ast::table::{ColumnType, Value};
use sea_orm_dbml::text::{
    all_distinct, contains_string, integer_text, join, natural_text, schema_name, str_eq,
};
use sea_orm_dbml::DEFAULT_SCHEMA;

fn s(text: &str) -> String {
    text.to_string()
}

#[test]
fn relation_symbols() {
    assert_eq!(Relation::match_type("<"), Some(Relation::One2One));
    assert_eq!(Relation::match_type(">"), Some(Relation::One2Many));
    assert_eq!(Relation::match_type("-"), Some(Relation::Many2One));
    assert_eq!(Relation::match_type("<>"), Some(Relation::Many2Many));
    assert_eq!(Relation::match_type("="), None);
    assert_eq!(Relation::match_type(""), None);
    assert_eq!(Relation::default(), Relation::Undef);
}

#[test]
fn action_phrases() {
    let all = [
        ("no action", RelationAction::NoAction),
        ("cascade", RelationAction::Cascade),
        ("restrict", RelationAction::Restrict),
        ("set null", RelationAction::SetNull),
        ("set default", RelationAction::SetDefault),
    ];
    for (phrase, action) in all {
        assert_eq!(RelationAction::match_type(phrase), Some(action));
        assert_eq!(action.to_string(), phrase);
    }
    assert_eq!(RelationAction::match_type("Cascade"), None);
    assert_eq!(RelationAction::match_type("set  null"), None);
}

#[test]
fn type_tokens() {
    let all = [
        ("char", ColumnType::Char),
        ("varchar", ColumnType::VarChar),
        ("smallint", ColumnType::SmallInt),
        ("int2", ColumnType::SmallInt),
        ("integer", ColumnType::Integer),
        ("int", ColumnType::Integer),
        ("int4", ColumnType::Integer),
        ("bigint", ColumnType::BigInt),
        ("int8", ColumnType::BigInt),
        ("real", ColumnType::Real),
        ("float4", ColumnType::Real),
        ("float8", ColumnType::DoublePrecision),
        ("bool", ColumnType::Bool),
        ("boolean", ColumnType::Bool),
        ("bytea", ColumnType::ByteArray),
        ("date", ColumnType::Date),
        ("text", ColumnType::Text),
        ("time", ColumnType::Time),
        ("timestamp", ColumnType::Timestamp),
        ("timestampz", ColumnType::Timestampz),
        ("uuid", ColumnType::Uuid),
        ("json", ColumnType::Json),
        ("decimal", ColumnType::Decimal),
        ("numeric", ColumnType::Decimal),
    ];
    for (token, kind) in all {
        assert_eq!(ColumnType::match_type(token), Some(kind));
    }
    assert_eq!(ColumnType::match_type("Integer"), None);
    assert_eq!(ColumnType::match_type("status"), None);
    assert_eq!(ColumnType::match_type(""), None);
}

#[test]
fn types_are_compared_by_kind_and_name() {
    assert!(ColumnType::Integer.same_as(&ColumnType::Integer));
    assert!(!ColumnType::Integer.same_as(&ColumnType::BigInt));
    assert!(ColumnType::Enum(s("a")).same_as(&ColumnType::Enum(s("a"))));
    assert!(!ColumnType::Enum(s("a")).same_as(&ColumnType::Enum(s("b"))));
    assert!(!ColumnType::Enum(s("a")).same_as(&ColumnType::Raw(s("a"))));
    assert!(ColumnType::Undef.same_as(&ColumnType::default()));
}

#[test]
fn values_as_text() {
    assert_eq!(Value::String(s("a b")).to_string(), "a b");
    assert_eq!(Value::Integer(0).to_string(), "0");
    assert_eq!(Value::Integer(42).to_string(), "42");
    assert_eq!(Value::Integer(-7).to_string(), "-7");
    assert_eq!(Value::Integer(i32::MAX).to_string(), "2147483647");
    assert_eq!(Value::Integer(i32::MIN).to_string(), "-2147483648");
    assert_eq!(Value::Decimal(s("19.5")).to_string(), "19.5");
    assert_eq!(Value::Bool(true).to_string(), "true");
    assert_eq!(Value::Bool(false).to_string(), "false");
    assert_eq!(Value::Null.to_string(), "null");
}

#[test]
fn numbers_as_text() {
    assert_eq!(natural_text(0), "0");
    assert_eq!(natural_text(9), "9");
    assert_eq!(natural_text(10), "10");
    assert_eq!(natural_text(1234567890), "1234567890");
    assert_eq!(natural_text(u64::MAX), "18446744073709551615");
    assert_eq!(integer_text(-10), "-10");
    assert_eq!(integer_text(105), "105");
}

#[test]
fn joined_text() {
    assert_eq!(join(&vec![], ", "), "");
    assert_eq!(join(&vec![s("a")], ", "), "a");
    assert_eq!(join(&vec![s("a"), s("b"), s("c")], ", "), "a, b, c");
    assert_eq!(join(&vec![s(""), s("")], "-"), "-");
}

#[test]
fn lists_of_names() {
    let list = vec![s("a"), s("b"), s("c")];
    assert!(all_distinct(&list));
    assert!(all_distinct(&vec![]));
    assert!(!all_distinct(&vec![s("a"), s("b"), s("a")]));
    assert!(contains_string(&list, &s("b")));
    assert!(!contains_string(&list, &s("d")));
    assert!(str_eq("a", "a"));
    assert!(!str_eq("a", "A"));
}

#[test]
fn default_schema_is_public() {
    assert_eq!(DEFAULT_SCHEMA, "public");
    assert_eq!(schema_name(&None), "public");
    assert_eq!(schema_name(&Some(s("sales"))), "sales");
}

#[test]
fn description_is_kept_as_it_is() {
    let input = SchemaBlock::default();
    assert_eq!(input.clone().transform_sematic(), input);
}
