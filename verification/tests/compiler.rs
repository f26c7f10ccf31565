use sea_orm_dbml::analyzer::block::IndexedRefBlock;
use sea_orm_dbml::analyzer::err::AnalysisError;
use sea_orm_dbml::analyzer::{RefDirection, SematicSchemaBlock};
use sea_orm_dbml::ast::enums::{EnumBlock, EnumId, EnumValue};
use sea_orm_dbml::ast::indexes::{IndexesBlock, IndexesField, IndexesSettings};
use sea_orm_dbml::ast::project::ProjectBlock;
use sea_orm_dbml::ast::refs::{RefBlock, RefIdent, Relation, RelationAction, RelationSettings};
use sea_orm_dbml::ast::schema::SchemaBlock;
use sea_orm_dbml::ast::table::{
    ColumnSettings, ColumnType, TableBlock, TableColumn, TableIdent, Value,
};
use sea_orm_dbml::compiler::config::{Config, EnumType, Target};
use sea_orm_dbml::compiler::entity::{
    attributes_of_column, default_value_text, is_in_index, model_of_table, sea_orm_attribute,
    IndexKind,
};
use sea_orm_dbml::compiler::relation::{
    add_cased_relation, cased_names, related_link_block, CasedRef, Relations,
};
use sea_orm_dbml::compiler::{
    compile, gen_entity_modules, gen_enum_modules, module_of_table, size_as_text,
};
use sea_orm_dbml::generator::{Block, Codegen};
use sea_orm_dbml::transpiler::config::DatabaseType;
use sea_orm_dbml::transpiler::traits::{
    enum_rust_type, scalar_rust_type_name, type_args, ToColType, ToRustType,
};
use sea_orm_dbml::{NAME, VERSION};

fn s(text: &str) -> String {
    text.to_string()
}

fn lines(all: &[&str]) -> String {
    let mut out = String::new();
    for l in all {
        out.push_str(l);
        out.push('\n');
    }
    out
}

fn column(name: &str, token: &str) -> TableColumn {
    TableColumn {
        name: s(name),
        col_type: ColumnType::Raw(s(token)),
        args: vec![],
        settings: ColumnSettings::default(),
    }
}

fn typed(name: &str, col_type: ColumnType) -> TableColumn {
    TableColumn { name: s(name), col_type, args: vec![], settings: ColumnSettings::default() }
}

fn pk(name: &str, token: &str) -> TableColumn {
    let mut c = column(name, token);
    c.settings.is_pk = true;
    c
}

fn table(name: &str, cols: Vec<TableColumn>) -> TableBlock {
    TableBlock {
        cols,
        ident: TableIdent { name: s(name), schema: None, alias: None },
        note: None,
        indexes: None,
    }
}

fn side(table: &str, columns: &[&str]) -> RefIdent {
    RefIdent {
        schema: None,
        table: s(table),
        compositions: columns.iter().map(|c| s(c)).collect(),
    }
}

fn schema(tables: Vec<TableBlock>, enums: Vec<EnumBlock>) -> SchemaBlock {
    SchemaBlock {
        project: Some(ProjectBlock { name: s("shop"), database_type: s("PostgreSQL"), note: None }),
        tables,
        table_groups: vec![],
        refs: vec![],
        enums,
    }
}

fn orders_and_customers() -> SematicSchemaBlock {
    let mut customer_id = column("customer_id", "integer");
    customer_id.settings.refs.push(RefBlock {
        rel: Relation::Many2One,
        lhs: None,
        rhs: side("customers", &["id"]),
        settings: None,
    });
    schema(
        vec![
            table("orders", vec![pk("id", "integer"), customer_id]),
            table("customers", vec![pk("id", "integer"), column("name", "text")]),
        ],
        vec![],
    )
    .analyze()
    .unwrap()
}

fn orders_module() -> String {
    lines(&[
        "pub mod orders {",
        "\tuse sea_orm::entity::prelude::*;",
        "",
        "\t#[derive(Clone, Debug, PartialEq, DeriveEntityModel)]",
        "\t#[sea_orm(table_name = \"orders\", schema_name = \"public\")]",
        "\tpub struct Model {",
        "\t\t#[sea_orm(column_type = \"Integer\", primary_key, auto_increment = false)]",
        "\t\tpub id: i32,",
        "\t\t#[sea_orm(column_type = \"Integer\")]",
        "\t\tpub customer_id: i32,",
        "\t}",
        "",
        "\t#[derive(Copy, Clone, Debug, EnumIter, DeriveRelation)]",
        "\tpub enum Relation {",
        "\t\t#[sea_orm(belongs_to = \"super::customers::Entity\", from = \"Column::CustomerId\", to = \"super::customers::Column::Id\")]",
        "\t\tCustomers,",
        "\t}",
        "",
        "\timpl Related<super::customers::Entity> for Entity {",
        "\t\tfn to() -> RelationDef {",
        "\t\t\tRelation::Customers.def()",
        "\t\t}",
        "\t}",
        "",
        "\timpl ActiveModelBehavior for ActiveModel {}",
        "}",
    ])
}

fn customers_module() -> String {
    lines(&[
        "pub mod customers {",
        "\tuse sea_orm::entity::prelude::*;",
        "",
        "\t#[derive(Clone, Debug, PartialEq, DeriveEntityModel)]",
        "\t#[sea_orm(table_name = \"customers\", schema_name = \"public\")]",
        "\tpub struct Model {",
        "\t\t#[sea_orm(column_type = \"Integer\", primary_key, auto_increment = false)]",
        "\t\tpub id: i32,",
        "\t\t#[sea_orm(column_type = \"Text\")]",
        "\t\tpub name: String,",
        "\t}",
        "",
        "\t#[derive(Copy, Clone, Debug, EnumIter, DeriveRelation)]",
        "\tpub enum Relation {",
        "\t\t#[sea_orm(has_many = \"super::orders::Entity\")]",
        "\t\tOrders,",
        "\t}",
        "",
        "\timpl Related<super::orders::Entity> for Entity {",
        "\t\tfn to() -> RelationDef {",
        "\t\t\tRelation::Orders.def()",
        "\t\t}",
        "\t}",
        "",
        "\timpl ActiveModelBehavior for ActiveModel {}",
        "}",
    ])
}

#[test]
fn entities_of_two_related_tables() {
    let text = compile(orders_and_customers(), &Config::default()).unwrap();
    let expected = format!(
        "//! Generated by {} {}\n\n{}\n{}",
        NAME,
        VERSION,
        orders_module(),
        customers_module()
    );
    assert_eq!(text, expected);
    assert_eq!(NAME, "sea_orm_dbml");
    assert_eq!(VERSION, "0.1.0");
}

#[test]
fn module_of_one_table() {
    let model = orders_and_customers();
    let module = module_of_table(&model, &model.tables[1]).unwrap();
    assert_eq!(format!("{}\n", module.to_string()), customers_module());
    let file = gen_entity_modules(&model, Codegen::new(), &Config::default()).unwrap();
    assert_eq!(file.to_string(), format!("\n{}\n{}", orders_module(), customers_module()));
}

#[test]
fn names_are_put_into_their_letter_cases() {
    let mut owner_id = column("owner_id", "integer");
    owner_id.settings.refs.push(RefBlock {
        rel: Relation::One2One,
        lhs: None,
        rhs: side("shopOwners", &["owner_key"]),
        settings: Some(RelationSettings {
            on_delete: Some(RelationAction::SetNull),
            on_update: Some(RelationAction::NoAction),
        }),
    });
    let model = schema(
        vec![
            table("line items", vec![pk("id", "integer"), owner_id]),
            table("shopOwners", vec![pk("owner_key", "integer")]),
        ],
        vec![],
    )
    .analyze()
    .unwrap();
    let text = compile(model, &Config::default()).unwrap();
    assert!(text.contains("pub mod line_items {\n"));
    assert!(text.contains("pub mod shop_owners {\n"));
    assert!(text.contains("#[sea_orm(table_name = \"line items\", schema_name = \"public\")]"));
    assert!(text.contains(
        "\t\t#[sea_orm(belongs_to = \"super::shop_owners::Entity\", from = \"Column::OwnerId\", to = \"super::shop_owners::Column::OwnerKey\", on_delete = \"SetNull\", on_update = \"NoAction\")]\n\t\tShopOwners,\n"
    ));
    assert!(text.contains("\t\t#[sea_orm(has_one = \"super::line_items::Entity\")]\n\t\tLineItems,\n"));
    assert!(text.contains("\timpl Related<super::line_items::Entity> for Entity {\n"));
    assert!(text.contains("\t\t\tRelation::ShopOwners.def()\n"));
}

#[test]
fn names_of_a_relation() {
    let block = IndexedRefBlock {
        rel: Relation::Many2One,
        lhs: side("order_lines", &["cake_id"]),
        rhs: side("cakeKinds", &["kind id"]),
        settings: Some(RelationSettings { on_delete: Some(RelationAction::SetDefault), on_update: None }),
    };
    assert_eq!(
        cased_names(&block, RefDirection::To),
        CasedRef {
            from_field: Some(s("CakeId")),
            to_field: Some(s("KindId")),
            other_pascal: s("CakeKinds"),
            other_snake: s("cake_kinds"),
            on_delete: Some(s("SetDefault")),
            on_update: None,
        }
    );
    let by = cased_names(&block, RefDirection::By);
    assert_eq!(by.other_pascal, "OrderLines");
    assert_eq!(by.other_snake, "order_lines");
    let none = IndexedRefBlock {
        rel: Relation::Many2One,
        lhs: side("a", &[]),
        rhs: side("b", &[]),
        settings: None,
    };
    let names = cased_names(&none, RefDirection::Itself);
    assert_eq!((names.from_field, names.to_field), (None, None));
}

fn start() -> Relations {
    Relations { variants: Block::new(2, Some("pub enum Relation")), links: vec![] }
}

fn names(from: Option<&str>, to: Option<&str>) -> CasedRef {
    CasedRef {
        from_field: from.map(s),
        to_field: to.map(s),
        other_pascal: s("Cake"),
        other_snake: s("cake"),
        on_delete: Some(s("Cascade")),
        on_update: Some(s("Restrict")),
    }
}

#[test]
fn relation_of_a_table_to_itself() {
    let out = add_cased_relation(
        start(),
        Relation::Many2One,
        RefDirection::Itself,
        &names(Some("ParentId"), Some("Id")),
    )
    .unwrap();
    assert_eq!(
        out.variants.to_string(),
        "\tpub enum Relation {\n\t\t#[sea_orm(belongs_to = \"Entity\", from = \"Column::ParentId\", to = \"Column::Id\", on_delete = \"Cascade\", on_update = \"Restrict\")]\n\t\tSelfReferencing,\n\t}"
    );
    assert_eq!(out.links.len(), 2);
    assert_eq!(out.links[0].to_string(), "\tpub struct SelfReferencingLink {}");
    assert_eq!(
        out.links[1].to_string(),
        "\timpl Linked for SelfReferencingLink {\n\t\ttype FromEntity = Entity;\n\t\ttype ToEntity = Entity;\n\n\t\tfn link(&self) -> Vec<RelationDef> {\n\t\t\tvec![Relation::SelfReferencing.def()]\n\t\t}\n\t}"
    );
}

#[test]
fn relation_to_and_by_another_table() {
    let to = add_cased_relation(
        start(),
        Relation::One2One,
        RefDirection::To,
        &names(Some("CakeId"), Some("Id")),
    )
    .unwrap();
    assert_eq!(
        to.variants.to_string(),
        "\tpub enum Relation {\n\t\t#[sea_orm(belongs_to = \"super::cake::Entity\", from = \"Column::CakeId\", to = \"super::cake::Column::Id\", on_delete = \"Cascade\", on_update = \"Restrict\")]\n\t\tCake,\n\t}"
    );
    assert_eq!(to.links, vec![related_link_block("cake", "Cake")]);
    let one = add_cased_relation(start(), Relation::One2One, RefDirection::By, &names(None, None))
        .unwrap();
    assert_eq!(
        one.variants.to_string(),
        "\tpub enum Relation {\n\t\t#[sea_orm(has_one = \"super::cake::Entity\")]\n\t\tCake,\n\t}"
    );
    let many = add_cased_relation(start(), Relation::Many2One, RefDirection::By, &names(None, None))
        .unwrap();
    assert_eq!(
        many.variants.to_string(),
        "\tpub enum Relation {\n\t\t#[sea_orm(has_many = \"super::cake::Entity\")]\n\t\tCake,\n\t}"
    );
    assert_eq!(many.links.len(), 1);
}

#[test]
fn relation_that_cannot_be_written() {
    let full = names(Some("A"), Some("B"));
    for way in [RefDirection::Itself, RefDirection::To] {
        assert_eq!(
            add_cased_relation(start(), Relation::Many2One, way, &names(None, Some("B"))),
            Err(AnalysisError::UnsupportedCompositeReference)
        );
        assert_eq!(
            add_cased_relation(start(), Relation::Many2One, way, &names(Some("A"), None)),
            Err(AnalysisError::UnsupportedCompositeReference)
        );
    }
    for rel in [Relation::Undef, Relation::One2Many, Relation::Many2Many] {
        assert_eq!(
            add_cased_relation(start(), rel, RefDirection::To, &full),
            Err(AnalysisError::UnsupportedRelationKind)
        );
        assert_eq!(
            add_cased_relation(start(), rel, RefDirection::By, &full),
            Err(AnalysisError::UnsupportedRelationKind)
        );
        assert!(add_cased_relation(start(), rel, RefDirection::Itself, &full).is_ok());
    }
    assert_eq!(
        add_cased_relation(start(), Relation::Many2Many, RefDirection::To, &names(None, None)),
        Err(AnalysisError::UnsupportedCompositeReference)
    );
}

#[test]
fn unresolved_column_cannot_be_written() {
    let raw = table("t", vec![column("a", "integer")]);
    assert_eq!(model_of_table(&raw), Err(AnalysisError::UnresolvedType));
    let mut model = orders_and_customers();
    model.tables[1].cols[1].col_type = ColumnType::Undef;
    assert_eq!(compile(model, &Config::default()), Err(AnalysisError::UnresolvedType));
}

#[test]
fn attributes_of_columns() {
    let mut t = table("t", vec![]);
    t.indexes = Some(IndexesBlock {
        fields: vec![
            IndexesField {
                ids: vec![s("a"), s("b")],
                settings: Some(IndexesSettings {
                    index_type: None,
                    name: None,
                    is_unique: false,
                    is_pk: true,
                }),
            },
            IndexesField {
                ids: vec![s("c")],
                settings: Some(IndexesSettings {
                    index_type: None,
                    name: None,
                    is_unique: true,
                    is_pk: false,
                }),
            },
            IndexesField { ids: vec![s("d")], settings: None },
        ],
    });
    assert!(is_in_index(&t, &s("a"), IndexKind::PrimaryKey));
    assert!(!is_in_index(&t, &s("a"), IndexKind::Unique));
    assert!(is_in_index(&t, &s("c"), IndexKind::Unique));
    assert!(is_in_index(&t, &s("d"), IndexKind::Plain));
    assert!(!is_in_index(&t, &s("e"), IndexKind::Plain));
    assert!(!is_in_index(&table("u", vec![]), &s("a"), IndexKind::Plain));

    let attrs = |c: &TableColumn| attributes_of_column(&t, c);
    assert_eq!(attrs(&typed("a", ColumnType::Integer)), vec![s("column_type = \"Integer\""), s("primary_key")]);
    assert_eq!(attrs(&typed("c", ColumnType::Text)), vec![s("column_type = \"Text\""), s("unique")]);
    assert_eq!(attrs(&typed("d", ColumnType::Text)), vec![s("column_type = \"Text\""), s("indexed")]);
    assert_eq!(attrs(&typed("x", ColumnType::Enum(s("status")))), Vec::<String>::new());

    let mut all = typed("d", ColumnType::VarChar);
    all.args = vec![Value::Integer(20)];
    all.settings = ColumnSettings {
        is_pk: true,
        is_unique: true,
        is_nullable: true,
        is_incremental: true,
        is_array: false,
        note: None,
        default: Some(Value::String(s("none"))),
        refs: vec![],
    };
    assert_eq!(
        attrs(&all),
        vec![
            s("column_type = \"String(Some(20))\""),
            s("primary_key"),
            s("nullable"),
            s("indexed"),
            s("unique"),
            s("default_value = \"none\""),
        ]
    );
    assert_eq!(
        sea_orm_attribute(&attrs(&all)),
        "#[sea_orm(column_type = \"String(Some(20))\", primary_key, nullable, indexed, unique, default_value = \"none\")]"
    );
    assert_eq!(default_value_text(&Value::Integer(-3)), "-3");
    assert_eq!(default_value_text(&Value::Bool(true)), "true");
    assert_eq!(default_value_text(&Value::Null), "null");
}

#[test]
fn model_of_a_table() {
    let mut note = typed("note", ColumnType::Text);
    note.settings.is_nullable = true;
    let mut tags = typed("tags", ColumnType::Text);
    tags.settings.is_array = true;
    let state = typed("state", ColumnType::Enum(s("order_state")));
    let t = table("t", vec![note, tags, state]);
    assert_eq!(
        model_of_table(&t).unwrap().to_string(),
        "\tpub struct Model {\n\t\t#[sea_orm(column_type = \"Text\", nullable)]\n\t\tpub note: Option<String>,\n\t\t#[sea_orm(column_type = \"Array<Arc<Text>>\")]\n\t\tpub tags: Vec<String>,\n\t\tpub state: super::OrderState,\n\t}"
    );
    assert_eq!(model_of_table(&table("e", vec![])).unwrap().to_string(), "\tpub struct Model {}");
}

#[test]
fn types_of_columns() {
    let all = [
        (ColumnType::Char, "String", "Char(None)"),
        (ColumnType::VarChar, "String", "String(None)"),
        (ColumnType::SmallInt, "i16", "SmallInteger"),
        (ColumnType::Integer, "i32", "Integer"),
        (ColumnType::BigInt, "i64", "BigInteger"),
        (ColumnType::Real, "f32", "Float"),
        (ColumnType::DoublePrecision, "f64", "Double"),
        (ColumnType::Bool, "bool", "Boolean"),
        (ColumnType::ByteArray, "Vec<u8>", "Binary"),
        (ColumnType::Date, "Date", "Date"),
        (ColumnType::Text, "String", "Text"),
        (ColumnType::Time, "Time", "Time"),
        (ColumnType::Timestamp, "DateTime", "DateTime"),
        (ColumnType::Timestampz, "DateTimeWithTimeZone", "TimestampWithTimeZone"),
        (ColumnType::Uuid, "Uuid", "Uuid"),
        (ColumnType::Json, "Json", "Json"),
        (ColumnType::Decimal, "Decimal", "Decimal(None)"),
    ];
    for (kind, rust, col) in all {
        assert_eq!(scalar_rust_type_name(&kind), Some(rust));
        let c = typed("c", kind);
        assert_eq!(c.to_rust_type(), Some(s(rust)));
        assert_eq!(c.to_col_type(), Some(s(col)));
    }
    for kind in [ColumnType::Undef, ColumnType::Raw(s("integer"))] {
        assert_eq!(scalar_rust_type_name(&kind), None);
        let c = typed("c", kind);
        assert_eq!(c.to_rust_type(), None);
        assert_eq!(c.to_col_type(), None);
    }
    let e = typed("c", ColumnType::Enum(s("order_state")));
    assert_eq!(e.to_rust_type(), Some(s("super::OrderState")));
    assert_eq!(e.to_col_type(), None);
    assert_eq!(enum_rust_type("OrderState"), "super::OrderState");

    let mut price = typed("price", ColumnType::Decimal);
    price.args = vec![Value::Integer(19), Value::Integer(4)];
    assert_eq!(price.to_col_type(), Some(s("Decimal(Some((19, 4)))")));
    price.settings.is_array = true;
    assert_eq!(price.to_col_type(), Some(s("Array<Arc<Decimal(Some((19, 4)))>>")));
    assert_eq!(price.to_rust_type(), Some(s("Vec<Decimal>")));
    assert_eq!(type_args(&vec![]), "None");
    assert_eq!(type_args(&vec![Value::Integer(255)]), "Some(255)");
    assert_eq!(type_args(&vec![Value::Integer(1), Value::Integer(2), Value::Null]), "Some((1, 2, null))");
}

fn status() -> EnumBlock {
    EnumBlock {
        id: EnumId { name: s("order_status"), schema: Some(s("sales")) },
        values: vec![
            EnumValue { value: s("open"), note: s("") },
            EnumValue { value: s("in_progress"), note: s("") },
        ],
    }
}

fn with_enum() -> SematicSchemaBlock {
    schema(vec![], vec![status()]).analyze().unwrap()
}

fn options(enum_type: EnumType, is_native_enum: bool) -> Config {
    Config { in_path: s("in"), out_path: s("out"), target: Target::Postgres, enum_type, is_native_enum }
}

#[test]
fn enum_stored_as_text() {
    let text = compile(with_enum(), &Config::default()).unwrap();
    let expected = format!(
        "//! Generated by {} {}\n\nuse sea_orm::entity::prelude::*;\n\n{}",
        NAME,
        VERSION,
        lines(&[
            "#[derive(Clone, Debug, PartialEq, EnumIter, DeriveActiveEnum)]",
            "#[sea_orm(rs_type = \"String\", db_type = \"Enum\", enum_name = \"order_status\", schema_name = \"sales\")]",
            "pub enum OrderStatus {",
            "\t#[sea_orm(string_value = \"open\")]",
            "\tOpen,",
            "\t#[sea_orm(string_value = \"in_progress\")]",
            "\tInProgress,",
            "}",
        ])
    );
    assert_eq!(text, expected);
}

#[test]
fn enum_stored_as_number_or_sized_text() {
    let file = gen_enum_modules(&with_enum(), Codegen::new(), &options(EnumType::Integer, true));
    assert_eq!(
        file.to_string(),
        format!(
            "\n{}",
            lines(&[
                "#[derive(Clone, Debug, PartialEq, EnumIter, DeriveActiveEnum)]",
                "#[sea_orm(rs_type = \"i32\", db_type = \"Integer\", enum_name = \"order_status\", schema_name = \"sales\")]",
                "pub enum OrderStatus {",
                "\t#[sea_orm(num_value = 0)]",
                "\tOpen,",
                "\t#[sea_orm(num_value = 1)]",
                "\tInProgress,",
                "}",
            ])
        )
    );
    let sized = gen_enum_modules(
        &with_enum(),
        Codegen::new(),
        &options(EnumType::String(Some(32)), false),
    );
    assert!(sized.to_string().contains("rs_type = \"String\", db_type = \"String(Some(32))\""));
    let open = gen_enum_modules(&with_enum(), Codegen::new(), &options(EnumType::String(None), false));
    assert!(open.to_string().contains("db_type = \"String(None)\""));
    assert_eq!(size_as_text(Some(0)), "Some(0)");
    assert_eq!(size_as_text(None), "None");
}

#[test]
fn options_are_validated() {
    assert_eq!(Config::default().validate(), Some("in_path is not set"));
    let mut config = Config::default();
    config.in_path = s("schema.dbml");
    assert_eq!(config.validate(), Some("out_path is not set"));
    config.out_path = s("out.rs");
    assert_eq!(config.validate(), None);
    assert_eq!(config.enum_type, EnumType::String(None));
    assert!(config.is_native_enum);
    assert_eq!(config.target, Target::Postgres);
}

#[test]
fn databases_for_which_entities_can_be_generated() {
    assert!(DatabaseType::PostgreSQL.is_supported());
    assert!(DatabaseType::MySQL.is_supported());
    assert!(DatabaseType::SQLite.is_supported());
    for other in [
        DatabaseType::Oracle,
        DatabaseType::MongoDB,
        DatabaseType::MSSQL,
        DatabaseType::MariaDB,
    ] {
        assert!(!other.is_supported());
    }
}
