use sea_orm_dbml::analyzer::SematicSchemaBlock;
use sea_orm_dbml::ast::project::ProjectBlock;
use sea_orm_dbml::ast::schema::SchemaBlock;
use sea_orm_dbml::transpiler::{transpile, transpile_sea_orm_postgresql, Config, Target};

fn model() -> SematicSchemaBlock {
    SchemaBlock {
        project: Some(ProjectBlock {
            name: "p".to_string(),
            database_type: "PostgreSQL".to_string(),
            note: None,
        }),
        tables: vec![],
        table_groups: vec![],
        refs: vec![],
        enums: vec![],
    }
    .analyze()
    .unwrap()
}

#[test]
fn options_name_input_output_and_target() {
    let config = Config::new("in.dbml", Target::SeaORMPostgreSQL);
    assert_eq!(config.in_path(), "in.dbml");
    assert_eq!(config.out_path(), &None);
    assert_eq!(config.target(), Target::SeaORMPostgreSQL);
    let config = config.set_out_path("out.rs").set_out_path("mod.rs");
    assert_eq!(config.in_path(), "in.dbml");
    assert_eq!(config.out_path(), &Some("mod.rs".to_string()));
    assert_eq!(config.clone(), config);
}

#[test]
fn text_for_the_target_is_empty() {
    assert_eq!(transpile(model(), &Target::SeaORMPostgreSQL), Ok(String::new()));
    assert_eq!(transpile_sea_orm_postgresql(model()), Ok(String::new()));
}
