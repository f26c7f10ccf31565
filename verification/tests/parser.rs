use sea_orm_dbml::ast::enums::{EnumBlock, EnumId, EnumValue};
use sea_orm_dbml::ast::indexes::{IndexesBlock, IndexesField, IndexesSettings};
use sea_orm_dbml::ast::project::ProjectBlock;
use sea_orm_dbml::ast::refs::{RefBlock, RefIdent, Relation, RelationAction, RelationSettings};
use sea_orm_dbml::ast::schema::SchemaBlock;
use sea_orm_dbml::ast::table::{
    ColumnSettings, ColumnType, TableBlock, TableColumn, TableIdent, Value,
};
use sea_orm_dbml::ast::table_group::{TableGroupBlock, TableGroupId};
use sea_orm_dbml::compiler::compile;
use sea_orm_dbml::compiler::config::Config;
use sea_orm_dbml::parser::decl::{
    parse_enum_block, parse_enum_decl, parse_enum_value, parse_project_decl, parse_project_stmt,
    parse_table_group_decl,
};
use sea_orm_dbml::parser::number::{parse_integer, value_of_digit};
use sea_orm_dbml::parser::refs::{
    parse_ref_decl, parse_ref_ident, parse_ref_stmt_inline, parse_rel_settings,
};
use sea_orm_dbml::parser::table::{
    parse_col_settings, parse_col_type, parse_col_type_arg, parse_indexes_block,
    parse_indexes_decl, parse_indexes_ident, parse_indexes_settings, parse_indexes_single_multi,
    parse_table_col, parse_table_decl,
};
use sea_orm_dbml::parser::value::{
    parse_decl_ident, parse_note_decl, parse_note_inline, parse_string_value, parse_value,
};
use sea_orm_dbml::parser::{parse, parse_schema, Pair, ParseError, Rule};

fn s(text: &str) -> String {
    text.to_string()
}

fn node(rule: Rule, inner: Vec<Pair>) -> Pair {
    Pair { rule, text: String::new(), inner }
}

fn leaf(rule: Rule, text: &str) -> Pair {
    Pair { rule, text: s(text), inner: vec![] }
}

fn ident(text: &str) -> Pair {
    leaf(Rule::Ident, text)
}

fn string_value(text: &str) -> Pair {
    node(
        Rule::StringValue,
        vec![node(Rule::SingleQuotedString, vec![leaf(Rule::SingleQuotedValue, text)])],
    )
}

fn long_string_value(text: &str) -> Pair {
    node(
        Rule::StringValue,
        vec![node(Rule::TripleQuotedString, vec![leaf(Rule::TripleQuotedValue, text)])],
    )
}

fn integer(text: &str) -> Pair {
    node(Rule::Value, vec![node(Rule::NumberValue, vec![leaf(Rule::Integer, text)])])
}

fn decl_ident(parts: &[&str]) -> Pair {
    node(Rule::DeclIdent, parts.iter().map(|p| ident(p)).collect())
}

fn ref_ident(parts: &[&str], columns: &[&str]) -> Pair {
    let mut inner: Vec<Pair> = parts.iter().map(|p| ident(p)).collect();
    inner.push(node(Rule::RefComposition, columns.iter().map(|c| ident(c)).collect()));
    node(Rule::RefIdent, inner)
}

fn col_type(token: &str, args: Vec<Pair>, array: bool) -> Pair {
    let mut body = vec![leaf(Rule::Var, token)];
    if !args.is_empty() {
        body.push(node(Rule::ColTypeArg, args));
    }
    let rule = if array { Rule::ColTypeArray } else { Rule::ColTypeSingle };
    node(Rule::ColType, vec![node(rule, body)])
}

fn mark(text: &str) -> Pair {
    leaf(Rule::ColAttribute, text)
}

fn attribute(part: Pair) -> Pair {
    Pair { rule: Rule::ColAttribute, text: s("..."), inner: vec![part] }
}

fn column(name: &str, kind: Pair, settings: Vec<Pair>) -> Pair {
    let mut inner = vec![ident(name), kind];
    if !settings.is_empty() {
        inner.push(node(Rule::ColSettings, settings));
    }
    node(Rule::TableCol, inner)
}

fn side(schema: Option<&str>, table: &str, columns: &[&str]) -> RefIdent {
    RefIdent {
        schema: schema.map(s),
        table: s(table),
        compositions: columns.iter().map(|c| s(c)).collect(),
    }
}

#[test]
fn integers_are_read() {
    assert_eq!(parse_integer("0"), Some(0));
    assert_eq!(parse_integer("42"), Some(42));
    assert_eq!(parse_integer("-42"), Some(-42));
    assert_eq!(parse_integer("+7"), Some(7));
    assert_eq!(parse_integer("007"), Some(7));
    assert_eq!(parse_integer("2147483647"), Some(i32::MAX));
    assert_eq!(parse_integer("-2147483648"), Some(i32::MIN));
    assert_eq!(parse_integer("2147483648"), None);
    assert_eq!(parse_integer("-2147483649"), None);
    assert_eq!(parse_integer("99999999999999999999999999"), None);
    assert_eq!(parse_integer(""), None);
    assert_eq!(parse_integer("-"), None);
    assert_eq!(parse_integer("+"), None);
    assert_eq!(parse_integer("1.5"), None);
    assert_eq!(parse_integer("12a"), None);
    assert_eq!(parse_integer(" 1"), None);
    for text in ["0", "42", "-42", "+7", "007", "2147483648", "", "-", "1.5", "x"] {
        assert_eq!(parse_integer(text), text.parse::<i32>().ok());
    }
    assert_eq!(value_of_digit('7'), Some(7));
    assert_eq!(value_of_digit('a'), None);
}

#[test]
fn string_values_are_read() {
    assert_eq!(parse_string_value(&string_value("a b")), Ok(s("a b")));
    assert_eq!(parse_string_value(&long_string_value("x\ny")), Ok(s("x\ny")));
    assert_eq!(parse_string_value(&node(Rule::StringValue, vec![])), Ok(s("")));
    assert_eq!(
        parse_string_value(&node(Rule::StringValue, vec![node(Rule::SingleQuotedString, vec![])])),
        Ok(s(""))
    );
    assert_eq!(
        parse_string_value(&node(Rule::StringValue, vec![ident("a")])),
        Err(ParseError::UnexpectedRule)
    );
    assert_eq!(
        parse_string_value(&node(
            Rule::StringValue,
            vec![node(Rule::SingleQuotedString, vec![leaf(Rule::TripleQuotedValue, "a")])]
        )),
        Err(ParseError::UnexpectedRule)
    );
}

#[test]
fn values_are_read() {
    assert_eq!(parse_value(&integer("19")), Ok(Value::Integer(19)));
    assert_eq!(parse_value(&integer("-3")), Ok(Value::Integer(-3)));
    assert_eq!(parse_value(&integer("3000000000")), Err(ParseError::InvalidNumber));
    assert_eq!(
        parse_value(&node(Rule::Value, vec![node(Rule::NumberValue, vec![leaf(Rule::Decimal, "1.50")])])),
        Ok(Value::Decimal(s("1.50")))
    );
    assert_eq!(parse_value(&node(Rule::Value, vec![string_value("x")])), Ok(Value::String(s("x"))));
    let word = |w: &str| {
        node(Rule::ColDefault, vec![node(Rule::BooleanValue, vec![leaf(Rule::BooleanValue, w)])])
    };
    assert_eq!(parse_value(&word("true")), Ok(Value::Bool(true)));
    assert_eq!(parse_value(&word("false")), Ok(Value::Bool(false)));
    assert_eq!(parse_value(&word("null")), Ok(Value::Null));
    assert_eq!(parse_value(&word("maybe")), Err(ParseError::UnknownWord));
    assert_eq!(parse_value(&node(Rule::Value, vec![])), Err(ParseError::MissingPart));
    assert_eq!(
        parse_value(&node(Rule::Value, vec![node(Rule::NumberValue, vec![])])),
        Err(ParseError::MissingPart)
    );
    assert_eq!(parse_value(&node(Rule::Value, vec![ident("a")])), Err(ParseError::UnexpectedRule));
    assert_eq!(
        parse_value(&node(Rule::Value, vec![node(Rule::NumberValue, vec![ident("1")])])),
        Err(ParseError::UnexpectedRule)
    );
}

#[test]
fn names_are_read() {
    assert_eq!(parse_decl_ident(&decl_ident(&["users"])), Ok((None, s("users"))));
    assert_eq!(parse_decl_ident(&decl_ident(&["core", "users"])), Ok((Some(s("core")), s("users"))));
    assert_eq!(parse_decl_ident(&decl_ident(&[])), Err(ParseError::MalformedIdent));
    assert_eq!(parse_decl_ident(&decl_ident(&["a", "b", "c"])), Err(ParseError::MalformedIdent));
    assert_eq!(
        parse_decl_ident(&node(Rule::DeclIdent, vec![leaf(Rule::Var, "a")])),
        Err(ParseError::UnexpectedRule)
    );
}

#[test]
fn notes_are_read() {
    let inline = node(Rule::NoteInline, vec![string_value("first"), string_value("last")]);
    assert_eq!(parse_note_inline(&inline), Ok(s("last")));
    assert_eq!(parse_note_inline(&node(Rule::NoteInline, vec![])), Ok(s("")));
    assert_eq!(
        parse_note_inline(&node(Rule::NoteInline, vec![ident("x")])),
        Err(ParseError::UnexpectedRule)
    );
    let short = node(Rule::NoteDecl, vec![node(Rule::NoteShort, vec![string_value("n")])]);
    assert_eq!(parse_note_decl(&short), Ok(s("n")));
    let block = node(Rule::NoteDecl, vec![node(Rule::NoteBlock, vec![long_string_value("long")])]);
    assert_eq!(parse_note_decl(&block), Ok(s("long")));
    assert_eq!(
        parse_note_decl(&node(Rule::NoteDecl, vec![string_value("n")])),
        Err(ParseError::UnexpectedRule)
    );
}

#[test]
fn sides_of_relations_are_read() {
    assert_eq!(parse_ref_ident(&ref_ident(&["users"], &["id"])), Ok(side(None, "users", &["id"])));
    assert_eq!(
        parse_ref_ident(&ref_ident(&["core", "users"], &["a", "b"])),
        Ok(side(Some("core"), "users", &["a", "b"]))
    );
    assert_eq!(parse_ref_ident(&ref_ident(&[], &["id"])), Err(ParseError::MalformedIdent));
    assert_eq!(
        parse_ref_ident(&node(Rule::RefIdent, vec![ident("u"), node(Rule::RefComposition, vec![leaf(Rule::Var, "x")])])),
        Err(ParseError::UnexpectedRule)
    );
}

fn settings(update: &str, delete: &str) -> Pair {
    node(
        Rule::RelSettings,
        vec![
            node(Rule::RelAttribute, vec![node(Rule::RelUpdate, vec![leaf(Rule::RelAction, update)])]),
            node(Rule::RelAttribute, vec![node(Rule::RelDelete, vec![leaf(Rule::RelAction, delete)])]),
        ],
    )
}

#[test]
fn settings_of_relations_are_read() {
    assert_eq!(
        parse_rel_settings(&settings("cascade", "set null")),
        Ok(RelationSettings {
            on_delete: Some(RelationAction::SetNull),
            on_update: Some(RelationAction::Cascade),
        })
    );
    assert_eq!(parse_rel_settings(&settings("cascade", "drop")), Err(ParseError::UnknownWord));
    assert_eq!(parse_rel_settings(&node(Rule::RelSettings, vec![])), Ok(RelationSettings::default()));
    assert_eq!(
        parse_rel_settings(&node(Rule::RelSettings, vec![ident("x")])),
        Err(ParseError::UnexpectedRule)
    );
}

#[test]
fn relations_are_read() {
    let full = node(
        Rule::RefStmt,
        vec![
            ref_ident(&["orders"], &["user_id"]),
            leaf(Rule::Relation, "-"),
            ref_ident(&["core", "users"], &["id"]),
            settings("no action", "restrict"),
        ],
    );
    let expected = RefBlock {
        rel: Relation::Many2One,
        lhs: Some(side(None, "orders", &["user_id"])),
        rhs: side(Some("core"), "users", &["id"]),
        settings: Some(RelationSettings {
            on_delete: Some(RelationAction::Restrict),
            on_update: Some(RelationAction::NoAction),
        }),
    };
    assert_eq!(parse_ref_stmt_inline(&full), Ok(expected.clone()));
    let inline = node(Rule::RefInline, vec![leaf(Rule::Relation, "<"), ref_ident(&["users"], &["id"])]);
    assert_eq!(
        parse_ref_stmt_inline(&inline),
        Ok(RefBlock {
            rel: Relation::One2One,
            lhs: None,
            rhs: side(None, "users", &["id"]),
            settings: None,
        })
    );
    let unknown = node(Rule::RefInline, vec![leaf(Rule::Relation, "=="), ref_ident(&["users"], &["id"])]);
    assert_eq!(parse_ref_stmt_inline(&unknown), Err(ParseError::UnknownWord));

    let short = node(Rule::RefDecl, vec![node(Rule::RefShort, vec![Pair { rule: Rule::RefStmt, text: s(""), inner: full.inner.iter().map(copy).collect() }])]);
    assert_eq!(parse_ref_decl(&short), Ok(expected));
    assert_eq!(parse_ref_decl(&node(Rule::RefDecl, vec![])), Err(ParseError::MissingPart));
    assert_eq!(
        parse_ref_decl(&node(Rule::RefDecl, vec![node(Rule::RefBlock, vec![])])),
        Err(ParseError::MissingPart)
    );
    assert_eq!(
        parse_ref_decl(&node(Rule::RefDecl, vec![node(Rule::RefBlock, vec![ident("x")])])),
        Err(ParseError::UnexpectedRule)
    );
    assert_eq!(
        parse_ref_decl(&node(Rule::RefDecl, vec![ident("x")])),
        Err(ParseError::UnexpectedRule)
    );
}

fn copy(pair: &Pair) -> Pair {
    Pair { rule: pair.rule, text: pair.text.clone(), inner: pair.inner.iter().map(copy).collect() }
}

#[test]
fn types_of_columns_are_read() {
    assert_eq!(
        parse_col_type(&col_type("varchar", vec![integer("255")], false)),
        Ok((ColumnType::Raw(s("varchar")), vec![Value::Integer(255)], false))
    );
    assert_eq!(
        parse_col_type(&col_type("text", vec![], true)),
        Ok((ColumnType::Raw(s("text")), vec![], true))
    );
    assert_eq!(parse_col_type(&node(Rule::ColType, vec![])), Ok((ColumnType::Undef, vec![], false)));
    assert_eq!(
        parse_col_type(&node(Rule::ColType, vec![leaf(Rule::Var, "text")])),
        Err(ParseError::UnexpectedRule)
    );
    assert_eq!(
        parse_col_type_arg(&node(Rule::ColTypeArg, vec![integer("19"), integer("4")])),
        Ok(vec![Value::Integer(19), Value::Integer(4)])
    );
    assert_eq!(
        parse_col_type_arg(&node(Rule::ColTypeArg, vec![ident("x")])),
        Err(ParseError::UnexpectedRule)
    );
}

#[test]
fn settings_of_columns_are_read() {
    let all = node(
        Rule::ColSettings,
        vec![
            mark("pk"),
            mark("increment"),
            mark("unique"),
            mark("not null"),
            attribute(node(Rule::ColDefault, vec![string_value("none")])),
            attribute(node(Rule::NoteInline, vec![string_value("the key")])),
            attribute(node(
                Rule::RefInline,
                vec![leaf(Rule::Relation, "-"), ref_ident(&["users"], &["id"])],
            )),
        ],
    );
    assert_eq!(
        parse_col_settings(&all),
        Ok(ColumnSettings {
            is_pk: true,
            is_unique: true,
            is_nullable: false,
            is_incremental: true,
            is_array: false,
            note: Some(s("the key")),
            default: Some(Value::String(s("none"))),
            refs: vec![RefBlock {
                rel: Relation::Many2One,
                lhs: None,
                rhs: side(None, "users", &["id"]),
                settings: None,
            }],
        })
    );
    let other = node(Rule::ColSettings, vec![mark("primary key"), mark("null")]);
    let read = parse_col_settings(&other).unwrap();
    assert!(read.is_pk && read.is_nullable && !read.is_unique);
    assert_eq!(parse_col_settings(&node(Rule::ColSettings, vec![])), Ok(ColumnSettings::default()));
    assert_eq!(
        parse_col_settings(&node(Rule::ColSettings, vec![attribute(ident("x"))])),
        Err(ParseError::UnexpectedRule)
    );
    assert_eq!(
        parse_col_settings(&node(Rule::ColSettings, vec![ident("pk")])),
        Err(ParseError::UnexpectedRule)
    );
}

#[test]
fn columns_are_read() {
    let plain = column("tags", col_type("text", vec![], true), vec![]);
    let read = parse_table_col(&plain).unwrap();
    assert_eq!(read.name, "tags");
    assert_eq!(read.col_type, ColumnType::Raw(s("text")));
    assert!(read.settings.is_array);
    let with_settings = column("tags", col_type("text", vec![], true), vec![mark("unique")]);
    let read = parse_table_col(&with_settings).unwrap();
    assert!(read.settings.is_unique);
    assert!(!read.settings.is_array);
    assert_eq!(parse_table_col(&node(Rule::TableCol, vec![])), Ok(TableColumn::default()));
    assert_eq!(
        parse_table_col(&node(Rule::TableCol, vec![leaf(Rule::Var, "x")])),
        Err(ParseError::UnexpectedRule)
    );
}

fn index(ids: Vec<Pair>, settings: Option<Vec<Pair>>) -> Pair {
    let mut inner: Vec<Pair> = ids.into_iter().map(|i| node(Rule::IndexesIdent, vec![i])).collect();
    let rule = if inner.len() > 1 { Rule::IndexesMulti } else { Rule::IndexesSingle };
    if let Some(parts) = settings {
        inner.push(node(Rule::IndexesSettings, vec![node(Rule::IndexesAttribute, parts)]));
    }
    node(rule, inner)
}

#[test]
fn indexes_are_read() {
    assert_eq!(parse_indexes_ident(&node(Rule::IndexesIdent, vec![ident("a")])), Ok(s("a")));
    let expression = node(
        Rule::IndexesIdent,
        vec![node(Rule::BackquotedQuotedString, vec![leaf(Rule::BackquotedQuotedValue, "lower(a)")])],
    );
    assert_eq!(parse_indexes_ident(&expression), Ok(s("lower(a)")));
    assert_eq!(parse_indexes_ident(&node(Rule::IndexesIdent, vec![])), Err(ParseError::MissingPart));
    assert_eq!(
        parse_indexes_ident(&node(Rule::IndexesIdent, vec![node(Rule::BackquotedQuotedString, vec![])])),
        Err(ParseError::MissingPart)
    );
    assert_eq!(
        parse_indexes_ident(&node(Rule::IndexesIdent, vec![leaf(Rule::Var, "a")])),
        Err(ParseError::UnexpectedRule)
    );

    let parts = vec![
        leaf(Rule::IndexesAttribute, "unique"),
        leaf(Rule::IndexesAttribute, "pk"),
        node(Rule::IndexesType, vec![leaf(Rule::Var, "btree"), leaf(Rule::Var, "hash")]),
        node(Rule::IndexesName, vec![string_value("by_name")]),
        node(Rule::NoteInline, vec![string_value("left out")]),
    ];
    let expected = IndexesSettings {
        index_type: Some(s("hash")),
        name: Some(s("by_name")),
        is_unique: true,
        is_pk: true,
    };
    let all = node(Rule::IndexesSettings, vec![node(Rule::IndexesAttribute, parts.iter().map(copy).collect())]);
    assert_eq!(parse_indexes_settings(&all), Ok(expected.clone()));
    let cleared = node(
        Rule::IndexesSettings,
        vec![node(
            Rule::IndexesAttribute,
            vec![
                node(Rule::IndexesType, vec![leaf(Rule::Var, "btree")]),
                node(Rule::IndexesType, vec![]),
                node(Rule::IndexesName, vec![]),
            ],
        )],
    );
    assert_eq!(parse_indexes_settings(&cleared), Ok(IndexesSettings::default()));
    assert_eq!(
        parse_indexes_settings(&node(Rule::IndexesSettings, vec![ident("x")])),
        Err(ParseError::UnexpectedRule)
    );

    let single = index(vec![ident("a")], None);
    assert_eq!(
        parse_indexes_single_multi(&single),
        Ok(IndexesField { ids: vec![s("a")], settings: None })
    );
    let multi = index(vec![ident("a"), ident("b")], Some(parts));
    let block = node(Rule::IndexesBlock, vec![single, multi]);
    let read = IndexesBlock {
        fields: vec![
            IndexesField { ids: vec![s("a")], settings: None },
            IndexesField { ids: vec![s("a"), s("b")], settings: Some(expected) },
        ],
    };
    assert_eq!(parse_indexes_block(&block), Ok(read.clone()));
    assert_eq!(parse_indexes_decl(&node(Rule::IndexesDecl, vec![block])), Ok(read));
    assert_eq!(parse_indexes_decl(&node(Rule::IndexesDecl, vec![])), Err(ParseError::MissingPart));
    assert_eq!(
        parse_indexes_decl(&node(Rule::IndexesDecl, vec![ident("x")])),
        Err(ParseError::UnexpectedRule)
    );
    assert_eq!(
        parse_indexes_block(&node(Rule::IndexesBlock, vec![ident("x")])),
        Err(ParseError::UnexpectedRule)
    );
}

fn users_table() -> Pair {
    node(
        Rule::TableDecl,
        vec![
            decl_ident(&["core", "users"]),
            leaf(Rule::TableAlias, "U"),
            node(
                Rule::TableBlock,
                vec![
                    column("id", col_type("integer", vec![], false), vec![mark("pk"), mark("increment")]),
                    column("name", col_type("varchar", vec![integer("80")], false), vec![]),
                    node(Rule::NoteDecl, vec![node(Rule::NoteShort, vec![string_value("people")])]),
                    node(
                        Rule::IndexesDecl,
                        vec![node(Rule::IndexesBlock, vec![index(vec![ident("name")], None)])],
                    ),
                ],
            ),
        ],
    )
}

fn users_block() -> TableBlock {
    let mut id = TableColumn {
        name: s("id"),
        col_type: ColumnType::Raw(s("integer")),
        args: vec![],
        settings: ColumnSettings::default(),
    };
    id.settings.is_pk = true;
    id.settings.is_incremental = true;
    let name = TableColumn {
        name: s("name"),
        col_type: ColumnType::Raw(s("varchar")),
        args: vec![Value::Integer(80)],
        settings: ColumnSettings::default(),
    };
    TableBlock {
        cols: vec![id, name],
        ident: TableIdent { name: s("users"), schema: Some(s("core")), alias: Some(s("U")) },
        note: Some(s("people")),
        indexes: Some(IndexesBlock {
            fields: vec![IndexesField { ids: vec![s("name")], settings: None }],
        }),
    }
}

#[test]
fn tables_are_read() {
    assert_eq!(parse_table_decl(&users_table()), Ok(users_block()));
    assert_eq!(parse_table_decl(&node(Rule::TableDecl, vec![])), Ok(TableBlock::default()));
    assert_eq!(
        parse_table_decl(&node(Rule::TableDecl, vec![ident("x")])),
        Err(ParseError::UnexpectedRule)
    );
    assert_eq!(
        parse_table_decl(&node(Rule::TableDecl, vec![node(Rule::TableBlock, vec![ident("x")])])),
        Err(ParseError::UnexpectedRule)
    );
    assert_eq!(
        parse_table_decl(&node(Rule::TableDecl, vec![decl_ident(&["a", "b", "c"])])),
        Err(ParseError::MalformedIdent)
    );
}

fn project() -> Pair {
    node(
        Rule::ProjectDecl,
        vec![
            ident("shop"),
            node(
                Rule::ProjectBlock,
                vec![
                    node(
                        Rule::ProjectStmt,
                        vec![leaf(Rule::ProjectKey, "database_type"), string_value("PostgreSQL")],
                    ),
                    node(Rule::NoteDecl, vec![node(Rule::NoteBlock, vec![long_string_value("a shop")])]),
                ],
            ),
        ],
    )
}

#[test]
fn project_is_read() {
    assert_eq!(
        parse_project_decl(&project()),
        Ok(ProjectBlock { name: s("shop"), database_type: s("PostgreSQL"), note: Some(s("a shop")) })
    );
    let stmt = node(Rule::ProjectStmt, vec![leaf(Rule::ProjectKey, "k"), string_value("v")]);
    assert_eq!(parse_project_stmt(&stmt), Ok((s("k"), s("v"))));
    assert_eq!(
        parse_project_decl(&node(Rule::ProjectDecl, vec![node(Rule::ProjectBlock, vec![stmt])])),
        Err(ParseError::UnknownWord)
    );
    assert_eq!(
        parse_project_stmt(&node(Rule::ProjectStmt, vec![ident("k")])),
        Err(ParseError::UnexpectedRule)
    );
    assert_eq!(
        parse_project_decl(&node(Rule::ProjectDecl, vec![leaf(Rule::Var, "x")])),
        Err(ParseError::UnexpectedRule)
    );
}

fn status() -> Pair {
    node(
        Rule::EnumDecl,
        vec![
            decl_ident(&["status"]),
            node(
                Rule::EnumBlock,
                vec![
                    node(Rule::EnumValue, vec![ident("open")]),
                    node(
                        Rule::EnumValue,
                        vec![
                            ident("closed"),
                            node(
                                Rule::EnumSettings,
                                vec![node(
                                    Rule::EnumAttribute,
                                    vec![node(Rule::NoteInline, vec![string_value("done")])],
                                )],
                            ),
                        ],
                    ),
                ],
            ),
        ],
    )
}

#[test]
fn enums_are_read() {
    let expected = EnumBlock {
        id: EnumId { name: s("status"), schema: None },
        values: vec![
            EnumValue { value: s("open"), note: s("") },
            EnumValue { value: s("closed"), note: s("done") },
        ],
    };
    assert_eq!(parse_enum_decl(&status()), Ok(expected.clone()));
    assert_eq!(parse_enum_block(&status().inner[1]), Ok(expected.values.clone()));
    assert_eq!(parse_enum_value(&status().inner[1].inner[1]), Ok(expected.values[1].clone()));
    assert_eq!(
        parse_enum_value(&node(Rule::EnumValue, vec![node(Rule::EnumSettings, vec![ident("x")])])),
        Err(ParseError::UnexpectedRule)
    );
    assert_eq!(
        parse_enum_block(&node(Rule::EnumBlock, vec![ident("x")])),
        Err(ParseError::UnexpectedRule)
    );
    assert_eq!(
        parse_enum_decl(&node(Rule::EnumDecl, vec![ident("x")])),
        Err(ParseError::UnexpectedRule)
    );
}

fn group() -> Pair {
    node(
        Rule::TableGroupDecl,
        vec![
            ident("people"),
            node(Rule::TableGroupBlock, vec![decl_ident(&["U"]), decl_ident(&["core", "users"])]),
        ],
    )
}

#[test]
fn table_groups_are_read() {
    assert_eq!(
        parse_table_group_decl(&group()),
        Ok(TableGroupBlock {
            name: s("people"),
            table_ids: vec![
                TableGroupId { name_1: None, name_2: s("U") },
                TableGroupId { name_1: Some(s("core")), name_2: s("users") },
            ],
        })
    );
    assert_eq!(
        parse_table_group_decl(&node(Rule::TableGroupDecl, vec![node(Rule::TableGroupBlock, vec![ident("x")])])),
        Err(ParseError::UnexpectedRule)
    );
}

fn orders_table() -> Pair {
    node(
        Rule::TableDecl,
        vec![
            decl_ident(&["core", "orders"]),
            node(
                Rule::TableBlock,
                vec![
                    column("id", col_type("int", vec![], false), vec![mark("pk")]),
                    column(
                        "user_id",
                        col_type("integer", vec![], false),
                        vec![attribute(node(
                            Rule::RefInline,
                            vec![leaf(Rule::Relation, "-"), ref_ident(&["U"], &["id"])],
                        ))],
                    ),
                    column("state", col_type("status", vec![], false), vec![]),
                ],
            ),
        ],
    )
}

fn whole() -> Pair {
    node(
        Rule::Schema,
        vec![project(), users_table(), orders_table(), status(), group(), leaf(Rule::Eoi, "")],
    )
}

#[test]
fn whole_description_is_read() {
    let read = parse_schema(&whole()).unwrap();
    assert_eq!(read.project.as_ref().map(|p| p.name.clone()), Some(s("shop")));
    assert_eq!(read.tables.len(), 2);
    assert_eq!(read.tables[0], users_block());
    assert_eq!(read.enums.len(), 1);
    assert_eq!(read.table_groups.len(), 1);
    assert_eq!(read.refs.len(), 0);
    assert_eq!(parse(&vec![whole()]), Ok(read));
    assert_eq!(parse(&vec![]), Err(ParseError::MissingPart));
    assert_eq!(parse(&vec![ident("x")]), Err(ParseError::UnexpectedRule));
    assert_eq!(parse(&vec![node(Rule::Schema, vec![])]), Ok(SchemaBlock::default()));
    assert_eq!(
        parse_schema(&node(Rule::Schema, vec![ident("x")])),
        Err(ParseError::UnexpectedRule)
    );
    assert_eq!(
        parse_schema(&node(Rule::Schema, vec![users_table(), node(Rule::RefDecl, vec![])])),
        Err(ParseError::MissingPart)
    );
}

#[test]
fn from_parse_tree_to_entities() {
    let model = parse(&vec![whole()]).unwrap().analyze().unwrap();
    assert_eq!(model.tables[1].cols[2].col_type, ColumnType::Enum(s("status")));
    assert_eq!(model.refs.len(), 1);
    let text = compile(model, &Config::default()).unwrap();
    assert!(text.contains("pub mod users {\n"));
    assert!(text.contains("\t#[sea_orm(table_name = \"orders\", schema_name = \"core\")]\n"));
    assert!(text.contains("\t\t#[sea_orm(column_type = \"Integer\", primary_key)]\n\t\tpub id: i32,\n"));
    assert!(text.contains("\t\t#[sea_orm(column_type = \"String(Some(80))\", indexed)]\n\t\tpub name: String,\n"));
    assert!(text.contains("\t\tpub state: super::Status,\n"));
    assert!(text.contains("\t\t#[sea_orm(belongs_to = \"super::u::Entity\", from = \"Column::UserId\", to = \"super::u::Column::Id\")]\n\t\tU,\n"));
    assert!(text.contains("\t\t#[sea_orm(has_many = \"super::orders::Entity\")]\n\t\tOrders,\n"));
    assert!(text.contains("pub enum Status {\n\t#[sea_orm(string_value = \"open\")]\n\tOpen,\n"));
}
