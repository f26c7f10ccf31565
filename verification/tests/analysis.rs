use sea_orm_dbml::analyzer::block::IndexedRefBlock;
use sea_orm_dbml::analyzer::err::AnalysisError;
use sea_orm_dbml::analyzer::SematicSchemaBlock;
use sea_orm_dbml::ast::enums::{EnumBlock, EnumId, EnumValue};
use sea_orm_dbml::ast::project::ProjectBlock;
use sea_orm_dbml::ast::refs::{RefBlock, RefIdent, Relation, RelationAction, RelationSettings};
use sea_orm_dbml::ast::schema::SchemaBlock;
use sea_orm_dbml::ast::table::{
    ColumnSettings, ColumnType, TableBlock, TableColumn, TableIdent, Value,
};
use sea_orm_dbml::ast::table_group::{TableGroupBlock, TableGroupId};

fn s(text: &str) -> String {
    text.to_string()
}

fn project() -> Option<ProjectBlock> {
    Some(ProjectBlock { name: s("shop"), database_type: s("PostgreSQL"), note: None })
}

fn ident(schema: Option<&str>, name: &str, alias: Option<&str>) -> TableIdent {
    TableIdent { name: s(name), schema: schema.map(s), alias: alias.map(s) }
}

fn side(schema: Option<&str>, table: &str, columns: &[&str]) -> RefIdent {
    RefIdent {
        schema: schema.map(s),
        table: s(table),
        compositions: columns.iter().map(|c| s(c)).collect(),
    }
}

fn column(name: &str, token: &str) -> TableColumn {
    TableColumn {
        name: s(name),
        col_type: ColumnType::Raw(s(token)),
        args: vec![],
        settings: ColumnSettings::default(),
    }
}

fn pk(name: &str, token: &str) -> TableColumn {
    let mut c = column(name, token);
    c.settings.is_pk = true;
    c
}

fn with_ref(mut c: TableColumn, rel: Relation, rhs: RefIdent) -> TableColumn {
    c.settings.refs.push(RefBlock { rel, lhs: None, rhs, settings: None });
    c
}

fn table(id: TableIdent, cols: Vec<TableColumn>) -> TableBlock {
    TableBlock { cols, ident: id, note: None, indexes: None }
}

fn schema(tables: Vec<TableBlock>) -> SchemaBlock {
    SchemaBlock { project: project(), tables, table_groups: vec![], refs: vec![], enums: vec![] }
}

fn customers(id_type: &str) -> TableBlock {
    table(ident(Some("public"), "customers", None), vec![pk("id", id_type), column("name", "text")])
}

fn orders() -> TableBlock {
    table(
        ident(Some("public"), "orders", None),
        vec![
            pk("id", "integer"),
            with_ref(
                column("customer_id", "integer"),
                Relation::Many2One,
                side(Some("public"), "customers", &["id"]),
            ),
        ],
    )
}

fn orders_and_customers() -> SchemaBlock {
    schema(vec![orders(), customers("integer")])
}

fn the_reference() -> IndexedRefBlock {
    IndexedRefBlock {
        rel: Relation::Many2One,
        lhs: side(Some("public"), "orders", &["customer_id"]),
        rhs: side(Some("public"), "customers", &["id"]),
        settings: None,
    }
}

fn analyzed(input: SchemaBlock) -> SematicSchemaBlock {
    input.analyze().unwrap()
}

#[test]
fn inline_reference_is_resolved() {
    let model = analyzed(orders_and_customers());
    assert_eq!(model.refs, vec![the_reference()]);
    assert_eq!(model.tables[0].cols[1].col_type, ColumnType::Integer);
    assert_eq!(model.tables[1].cols[1].col_type, ColumnType::Text);
}

#[test]
fn relations_of_a_table_are_partitioned() {
    let model = analyzed(orders_and_customers());
    let (to, by, itself) = model.get_table_refs(&ident(Some("public"), "customers", None));
    assert_eq!(to, vec![]);
    assert_eq!(by, vec![the_reference()]);
    assert_eq!(itself, vec![]);
    let (to, by, itself) = model.get_table_refs(&ident(Some("public"), "orders", None));
    assert_eq!(to, vec![the_reference()]);
    assert_eq!(by, vec![]);
    assert_eq!(itself, vec![]);
}

#[test]
fn mismatched_key_types_are_rejected() {
    let input = schema(vec![orders(), customers("text")]);
    assert_eq!(input.analyze(), Err(AnalysisError::MismatchedForeignKeyType));
}

fn explicit(rel: Relation, lhs: RefIdent, rhs: RefIdent) -> RefBlock {
    RefBlock { rel, lhs: Some(lhs), rhs, settings: None }
}

fn enumeration(schema: Option<&str>, name: &str, values: &[&str]) -> EnumBlock {
    EnumBlock {
        id: EnumId { name: s(name), schema: schema.map(s) },
        values: values.iter().map(|v| EnumValue { value: s(v), note: s("") }).collect(),
    }
}

fn plain_orders() -> TableBlock {
    table(
        ident(Some("public"), "orders", None),
        vec![pk("id", "integer"), column("customer_id", "integer")],
    )
}

#[test]
fn missing_project_is_rejected() {
    let mut input = orders_and_customers();
    input.project = None;
    assert_eq!(input.analyze(), Err(AnalysisError::ProjectBlockMissing));
}

#[test]
fn top_level_reference_without_left_side_is_rejected() {
    let mut input = schema(vec![plain_orders(), customers("integer")]);
    input.refs.push(RefBlock {
        rel: Relation::Many2One,
        lhs: None,
        rhs: side(Some("public"), "customers", &["id"]),
        settings: None,
    });
    assert_eq!(input.analyze(), Err(AnalysisError::MalformedReference));
}

#[test]
fn duplicate_table_name_is_rejected() {
    let input = schema(vec![customers("integer"), customers("integer")]);
    assert_eq!(input.analyze(), Err(AnalysisError::DuplicateTableName));
}

#[test]
fn table_without_schema_collides_with_the_default_schema() {
    let bare = table(ident(None, "customers", None), vec![pk("id", "integer")]);
    let input = schema(vec![customers("integer"), bare]);
    assert_eq!(input.analyze(), Err(AnalysisError::DuplicateTableName));
}

#[test]
fn same_table_name_in_two_schemas_is_accepted() {
    let other = table(ident(Some("archive"), "customers", None), vec![pk("id", "integer")]);
    let input = schema(vec![customers("integer"), other]);
    assert!(input.analyze().is_ok());
}

#[test]
fn duplicate_column_name_is_rejected() {
    let input = schema(vec![table(
        ident(None, "customers", None),
        vec![pk("id", "integer"), column("name", "text"), column("name", "text")],
    )]);
    assert_eq!(input.analyze(), Err(AnalysisError::DuplicateColumnName));
}

#[test]
fn duplicate_column_is_reported_before_duplicate_table() {
    let twice = table(
        ident(Some("public"), "customers", None),
        vec![column("name", "text"), column("name", "text")],
    );
    let input = schema(vec![customers("integer"), twice]);
    assert_eq!(input.analyze(), Err(AnalysisError::DuplicateColumnName));
}

#[test]
fn duplicate_alias_is_rejected() {
    let input = schema(vec![
        table(ident(None, "customers", Some("C")), vec![pk("id", "integer")]),
        table(ident(None, "carts", Some("C")), vec![pk("id", "integer")]),
    ]);
    assert_eq!(input.analyze(), Err(AnalysisError::DuplicateAlias));
}

#[test]
fn duplicate_alias_across_schemas_is_rejected() {
    let input = schema(vec![
        table(ident(Some("a"), "customers", Some("C")), vec![pk("id", "integer")]),
        table(ident(Some("b"), "carts", Some("C")), vec![pk("id", "integer")]),
    ]);
    assert_eq!(input.analyze(), Err(AnalysisError::DuplicateAlias));
}

#[test]
fn duplicate_enum_name_is_rejected() {
    let mut input = schema(vec![customers("integer")]);
    input.enums.push(enumeration(None, "status", &["open", "closed"]));
    input.enums.push(enumeration(Some("public"), "status", &["on", "off"]));
    assert_eq!(input.analyze(), Err(AnalysisError::DuplicateEnumName));
}

#[test]
fn duplicate_enum_value_is_rejected() {
    let mut input = schema(vec![customers("integer")]);
    input.enums.push(enumeration(None, "status", &["open", "closed", "open"]));
    assert_eq!(input.analyze(), Err(AnalysisError::DuplicateEnumValue));
}

#[test]
fn two_primary_keys_are_rejected() {
    let input = schema(vec![table(
        ident(None, "customers", None),
        vec![pk("id", "integer"), pk("code", "integer")],
    )]);
    assert_eq!(input.analyze(), Err(AnalysisError::DuplicatePrimaryKey));
}

#[test]
fn nullable_primary_key_is_rejected() {
    let mut key = pk("id", "integer");
    key.settings.is_nullable = true;
    let input = schema(vec![table(ident(None, "customers", None), vec![key])]);
    assert_eq!(input.analyze(), Err(AnalysisError::NullablePrimaryKey));
}

#[test]
fn array_primary_key_is_rejected() {
    let mut key = pk("id", "integer");
    key.settings.is_array = true;
    let input = schema(vec![table(ident(None, "customers", None), vec![key])]);
    assert_eq!(input.analyze(), Err(AnalysisError::ArrayPrimaryKey));
}

#[test]
fn primary_key_check_alone_reports_each_kind() {
    let good = table(ident(None, "t", None), vec![pk("id", "integer"), column("n", "text")]);
    assert_eq!(good.validate_primary_key(), Ok(()));
    let two = table(ident(None, "t", None), vec![pk("a", "integer"), pk("b", "integer")]);
    assert_eq!(two.validate_primary_key(), Err(AnalysisError::DuplicatePrimaryKey));
    let mut nullable_second = pk("b", "integer");
    nullable_second.settings.is_nullable = true;
    let both = table(ident(None, "t", None), vec![pk("a", "integer"), nullable_second]);
    assert_eq!(both.validate_primary_key(), Err(AnalysisError::NullablePrimaryKey));
}

#[test]
fn one_to_many_is_rejected() {
    let mut input = schema(vec![plain_orders(), customers("integer")]);
    input.refs.push(explicit(
        Relation::One2Many,
        side(Some("public"), "orders", &["customer_id"]),
        side(Some("public"), "customers", &["id"]),
    ));
    assert_eq!(input.analyze(), Err(AnalysisError::UnsupportedRelationKind));
}

#[test]
fn many_to_many_is_rejected_even_with_unknown_endpoints() {
    let mut input = schema(vec![plain_orders(), customers("integer")]);
    input.refs.push(explicit(
        Relation::Many2Many,
        side(Some("nowhere"), "nothing", &["a", "b"]),
        side(None, "missing", &[]),
    ));
    assert_eq!(input.analyze(), Err(AnalysisError::UnsupportedRelationKind));
}

#[test]
fn inline_one_to_many_is_rejected() {
    let input = schema(vec![
        table(
            ident(None, "orders", None),
            vec![
                pk("id", "integer"),
                with_ref(
                    column("customer_id", "integer"),
                    Relation::One2Many,
                    side(None, "customers", &["id"]),
                ),
            ],
        ),
        table(ident(None, "customers", None), vec![pk("id", "integer")]),
    ]);
    assert_eq!(input.analyze(), Err(AnalysisError::UnsupportedRelationKind));
}

#[test]
fn undefined_relation_kind_is_rejected() {
    let mut input = schema(vec![plain_orders(), customers("integer")]);
    input.refs.push(explicit(
        Relation::Undef,
        side(Some("public"), "orders", &["customer_id"]),
        side(Some("public"), "customers", &["id"]),
    ));
    assert_eq!(input.analyze(), Err(AnalysisError::UnsupportedRelationKind));
}

#[test]
fn one_to_one_is_accepted() {
    let mut input = schema(vec![plain_orders(), customers("integer")]);
    input.refs.push(explicit(
        Relation::One2One,
        side(Some("public"), "orders", &["customer_id"]),
        side(Some("public"), "customers", &["id"]),
    ));
    let model = analyzed(input);
    assert_eq!(model.refs.len(), 1);
    assert_eq!(model.refs[0].rel, Relation::One2One);
}

#[test]
fn two_columns_may_point_at_the_same_table() {
    let input = schema(vec![
        table(
            ident(None, "transfers", None),
            vec![
                pk("id", "integer"),
                with_ref(
                    column("sender_id", "integer"),
                    Relation::Many2One,
                    side(None, "accounts", &["id"]),
                ),
                with_ref(
                    column("receiver_id", "integer"),
                    Relation::Many2One,
                    side(None, "accounts", &["id"]),
                ),
            ],
        ),
        table(ident(None, "accounts", None), vec![pk("id", "integer")]),
    ]);
    let model = analyzed(input);
    assert_eq!(model.refs.len(), 2);
    assert_eq!(model.refs[0].lhs, side(None, "transfers", &["sender_id"]));
    assert_eq!(model.refs[1].lhs, side(None, "transfers", &["receiver_id"]));
}

#[test]
fn two_references_with_one_left_side_are_rejected() {
    let mut input = schema(vec![plain_orders(), customers("integer")]);
    for _ in 0..2 {
        input.refs.push(explicit(
            Relation::Many2One,
            side(Some("public"), "orders", &["customer_id"]),
            side(Some("public"), "customers", &["id"]),
        ));
    }
    assert_eq!(input.analyze(), Err(AnalysisError::DuplicateRelation));
}

#[test]
fn left_sides_are_compared_after_alias_resolution() {
    let mut input = schema(vec![
        table(
            ident(Some("public"), "orders", Some("O")),
            vec![pk("id", "integer"), column("customer_id", "integer")],
        ),
        customers("integer"),
    ]);
    input.refs.push(explicit(
        Relation::Many2One,
        side(Some("public"), "orders", &["customer_id"]),
        side(Some("public"), "customers", &["id"]),
    ));
    input.refs.push(explicit(
        Relation::Many2One,
        side(None, "O", &["customer_id"]),
        side(Some("public"), "customers", &["id"]),
    ));
    assert_eq!(input.analyze(), Err(AnalysisError::DuplicateRelation));
}

#[test]
fn inline_and_top_level_reference_on_one_column_are_rejected() {
    let mut input = orders_and_customers();
    input.refs.push(explicit(
        Relation::Many2One,
        side(Some("public"), "orders", &["customer_id"]),
        side(Some("public"), "customers", &["id"]),
    ));
    assert_eq!(input.analyze(), Err(AnalysisError::DuplicateRelation));
}

#[test]
fn composite_reference_is_rejected() {
    let mut input = schema(vec![
        table(
            ident(None, "orders", None),
            vec![pk("id", "integer"), column("a", "integer"), column("b", "integer")],
        ),
        table(
            ident(None, "customers", None),
            vec![pk("id", "integer"), column("a", "integer"), column("b", "integer")],
        ),
    ]);
    input.refs.push(explicit(
        Relation::Many2One,
        side(None, "orders", &["a", "b"]),
        side(None, "customers", &["a", "b"]),
    ));
    assert_eq!(input.analyze(), Err(AnalysisError::UnsupportedCompositeReference));
}

#[test]
fn reference_without_columns_is_rejected() {
    let mut input = schema(vec![plain_orders(), customers("integer")]);
    input.refs.push(explicit(
        Relation::Many2One,
        side(Some("public"), "orders", &[]),
        side(Some("public"), "customers", &["id"]),
    ));
    assert_eq!(input.analyze(), Err(AnalysisError::UnsupportedCompositeReference));
}

#[test]
fn reference_into_unknown_schema_table_or_column_is_rejected() {
    let build = |rhs: RefIdent| {
        let mut input = schema(vec![plain_orders(), customers("integer")]);
        input.refs.push(explicit(
            Relation::Many2One,
            side(Some("public"), "orders", &["customer_id"]),
            rhs,
        ));
        input.analyze()
    };
    assert_eq!(build(side(Some("sales"), "customers", &["id"])), Err(AnalysisError::SchemaNotFound));
    assert_eq!(build(side(Some("public"), "clients", &["id"])), Err(AnalysisError::TableNotFound));
    assert_eq!(build(side(Some("public"), "customers", &["key"])), Err(AnalysisError::ColumnNotFound));
    assert_eq!(build(side(None, "customers", &["id"])).map(|m| m.refs.len()), Ok(1));
}

#[test]
fn left_side_is_looked_up_before_right_side() {
    let mut input = schema(vec![plain_orders(), customers("integer")]);
    input.refs.push(explicit(
        Relation::Many2One,
        side(Some("public"), "orders", &["missing"]),
        side(Some("sales"), "customers", &["id"]),
    ));
    assert_eq!(input.analyze(), Err(AnalysisError::ColumnNotFound));
}

#[test]
fn first_offending_reference_decides() {
    let mut input = schema(vec![plain_orders(), customers("text")]);
    input.refs.push(explicit(
        Relation::Many2One,
        side(Some("public"), "orders", &["customer_id"]),
        side(Some("public"), "customers", &["id"]),
    ));
    input.refs.push(explicit(
        Relation::One2Many,
        side(Some("public"), "orders", &["id"]),
        side(Some("public"), "customers", &["id"]),
    ));
    assert_eq!(input.analyze(), Err(AnalysisError::MismatchedForeignKeyType));
}

#[test]
fn reference_through_alias_is_resolved() {
    let mut input = schema(vec![
        plain_orders(),
        table(ident(Some("public"), "customers", Some("C")), vec![pk("id", "integer")]),
    ]);
    input.refs.push(explicit(
        Relation::Many2One,
        side(Some("public"), "orders", &["customer_id"]),
        side(None, "C", &["id"]),
    ));
    let model = analyzed(input);
    assert_eq!(model.refs[0].rhs, side(None, "C", &["id"]));
    assert_eq!(
        model.indexer.refer_ref_alias(&model.refs[0].rhs),
        side(Some("public"), "customers", &["id"])
    );
    let (to, by, itself) = model.get_table_refs(&ident(Some("public"), "customers", None));
    assert_eq!((to.len(), by.len(), itself.len()), (0, 1, 0));
    let (to, by, itself) = model.get_table_refs(&ident(None, "customers", Some("C")));
    assert_eq!((to.len(), by.len(), itself.len()), (0, 1, 0));
}

#[test]
fn reference_of_a_table_to_itself_is_listed_once() {
    let input = schema(vec![table(
        ident(None, "employees", None),
        vec![
            pk("id", "integer"),
            with_ref(
                column("manager_id", "integer"),
                Relation::Many2One,
                side(None, "employees", &["id"]),
            ),
        ],
    )]);
    let model = analyzed(input);
    let (to, by, itself) = model.get_table_refs(&ident(None, "employees", None));
    assert_eq!((to.len(), by.len(), itself.len()), (0, 0, 1));
    let (to, by, itself) = model.get_table_refs(&ident(None, "others", None));
    assert_eq!((to.len(), by.len(), itself.len()), (0, 0, 0));
}

#[test]
fn table_group_member_by_alias_is_resolved() {
    let mut input = schema(vec![table(
        ident(None, "customers", Some("C")),
        vec![pk("id", "integer")],
    )]);
    input.table_groups.push(TableGroupBlock {
        name: s("people"),
        table_ids: vec![TableGroupId { name_1: None, name_2: s("C") }],
    });
    let model = analyzed(input);
    assert_eq!(model.indexer.refer_alias(&s("C")), Some((s("public"), s("customers"))));
    assert_eq!(model.indexer.refer_alias(&s("customers")), None);
    assert_eq!(
        model.indexer.resolve_table_group_member(&TableGroupId { name_1: None, name_2: s("C") }),
        Ok((s("public"), s("customers")))
    );
    assert_eq!(
        model
            .indexer
            .resolve_table_group_member(&TableGroupId { name_1: None, name_2: s("customers") }),
        Ok((s("public"), s("customers")))
    );
}

#[test]
fn table_group_member_with_schema_and_alias_is_rejected() {
    let mut input = schema(vec![table(
        ident(None, "customers", Some("C")),
        vec![pk("id", "integer")],
    )]);
    input.table_groups.push(TableGroupBlock {
        name: s("people"),
        table_ids: vec![TableGroupId { name_1: Some(s("public")), name_2: s("C") }],
    });
    assert_eq!(input.analyze(), Err(AnalysisError::AliasFollowedBySchema));
}

#[test]
fn table_group_member_must_be_a_table() {
    let build = |member: TableGroupId| {
        let mut input = schema(vec![customers("integer")]);
        input.table_groups.push(TableGroupBlock { name: s("g"), table_ids: vec![member] });
        input.analyze().map(|_| ())
    };
    assert_eq!(build(TableGroupId { name_1: None, name_2: s("customers") }), Ok(()));
    assert_eq!(
        build(TableGroupId { name_1: None, name_2: s("clients") }),
        Err(AnalysisError::TableNotFound)
    );
    assert_eq!(
        build(TableGroupId { name_1: Some(s("sales")), name_2: s("customers") }),
        Err(AnalysisError::SchemaNotFound)
    );
}

#[test]
fn unknown_type_is_unresolved() {
    let input = schema(vec![table(ident(None, "t", None), vec![column("a", "mystery")])]);
    assert_eq!(input.analyze(), Err(AnalysisError::UnresolvedType));
}

#[test]
fn type_that_is_not_raw_is_unresolved() {
    let mut c = column("a", "integer");
    c.col_type = ColumnType::Integer;
    let input = schema(vec![table(ident(None, "t", None), vec![c])]);
    assert_eq!(input.analyze(), Err(AnalysisError::UnresolvedType));
    let mut c = column("a", "integer");
    c.col_type = ColumnType::Undef;
    let input = schema(vec![table(ident(None, "t", None), vec![c])]);
    assert_eq!(input.analyze(), Err(AnalysisError::UnresolvedType));
}

#[test]
fn enum_type_is_resolved_in_the_default_schema() {
    let mut input = schema(vec![table(ident(None, "t", None), vec![column("state", "status")])]);
    input.enums.push(enumeration(None, "status", &["open", "closed"]));
    let model = analyzed(input);
    assert_eq!(model.tables[0].cols[0].col_type, ColumnType::Enum(s("status")));

    let mut input = schema(vec![table(ident(None, "t", None), vec![column("state", "status")])]);
    input.enums.push(enumeration(Some("other"), "status", &["open", "closed"]));
    assert_eq!(input.analyze(), Err(AnalysisError::UnresolvedType));
}

fn with_args(token: &str, args: Vec<Value>) -> Result<ColumnType, AnalysisError> {
    let mut c = column("a", token);
    c.args = args;
    schema(vec![table(ident(None, "t", None), vec![c])])
        .analyze()
        .map(|m| m.tables[0].cols[0].col_type.clone())
}

#[test]
fn type_arguments_are_checked() {
    assert_eq!(with_args("varchar", vec![]), Ok(ColumnType::VarChar));
    assert_eq!(with_args("varchar", vec![Value::Integer(255)]), Ok(ColumnType::VarChar));
    assert_eq!(with_args("char", vec![Value::Integer(2)]), Ok(ColumnType::Char));
    assert_eq!(
        with_args("decimal", vec![Value::Integer(19), Value::Integer(4)]),
        Ok(ColumnType::Decimal)
    );
    assert_eq!(
        with_args("varchar", vec![Value::Integer(1), Value::Integer(2)]),
        Err(AnalysisError::InvalidTypeArguments)
    );
    assert_eq!(
        with_args("varchar", vec![Value::String(s("x"))]),
        Err(AnalysisError::InvalidTypeArguments)
    );
    assert_eq!(
        with_args("decimal", vec![Value::Integer(19)]),
        Err(AnalysisError::InvalidTypeArguments)
    );
    assert_eq!(
        with_args("decimal", vec![Value::Integer(19), Value::Decimal(s("4.5"))]),
        Err(AnalysisError::InvalidTypeArguments)
    );
    assert_eq!(
        with_args("integer", vec![Value::Integer(4)]),
        Err(AnalysisError::InvalidTypeArguments)
    );
}

#[test]
fn analysis_is_repeatable() {
    let first = orders_and_customers().analyze();
    let second = orders_and_customers().analyze();
    assert!(first.is_ok());
    assert_eq!(first, second);
    let input = orders_and_customers();
    let copy = input.clone();
    assert_eq!(input.analyze(), copy.analyze());
    let failing = schema(vec![orders(), customers("text")]);
    let copy = failing.clone();
    assert_eq!(failing.analyze(), copy.analyze());
}

#[test]
fn model_keeps_what_analysis_does_not_touch() {
    let mut input = orders_and_customers();
    input.enums.push(enumeration(None, "status", &["open"]));
    input.table_groups.push(TableGroupBlock {
        name: s("all"),
        table_ids: vec![TableGroupId { name_1: Some(s("public")), name_2: s("orders") }],
    });
    let copy = input.clone();
    let model = analyzed(input);
    assert_eq!(model.project, copy.project);
    assert_eq!(model.enums, copy.enums);
    assert_eq!(model.table_groups, copy.table_groups);
    assert_eq!(model.tables.len(), 2);
    assert_eq!(model.tables[0].ident, copy.tables[0].ident);
    assert_eq!(model.tables[0].cols[1].settings, copy.tables[0].cols[1].settings);
    assert_eq!(model.clone(), model);
}

#[test]
fn relation_settings_are_carried_over() {
    let settings = Some(RelationSettings {
        on_delete: Some(RelationAction::Cascade),
        on_update: Some(RelationAction::SetNull),
    });
    let mut orders = plain_orders();
    orders.cols[1].settings.refs.push(RefBlock {
        rel: Relation::Many2One,
        lhs: None,
        rhs: side(Some("public"), "customers", &["id"]),
        settings,
    });
    let model = analyzed(schema(vec![orders, customers("integer")]));
    assert_eq!(model.refs[0].settings, settings);
}

#[test]
fn top_level_references_come_before_inline_ones() {
    let mut input = schema(vec![
        orders(),
        table(
            ident(Some("public"), "customers", None),
            vec![pk("id", "integer"), column("best_order", "integer")],
        ),
    ]);
    input.refs.push(explicit(
        Relation::One2One,
        side(Some("public"), "customers", &["best_order"]),
        side(Some("public"), "orders", &["id"]),
    ));
    let model = analyzed(input);
    assert_eq!(model.refs.len(), 2);
    assert_eq!(model.refs[0].rel, Relation::One2One);
    assert_eq!(model.refs[1], the_reference());
}
