//! Generation of entity definitions from a validated model.

use crate::analyzer::err::AnalysisError;
use crate::analyzer::{refs_in_direction, RefDirection, SematicSchemaBlock, SematicSchemaBlockView};
use crate::ast::enums::{EnumBlock, EnumBlockView};
use crate::ast::table::{TableBlock, TableBlockView};
use crate::casing::{pascal_case, snake_case, to_pascal_case, to_snake_case};
use crate::compiler::config::{Config, ConfigView, EnumType};
use crate::compiler::entity::{model_of_table, table_model};
use crate::compiler::relation::{add_relations, add_relations_of, Relations, RelationsView};
use crate::generator::{Block, BlockView, Codegen};
use crate::schema_or_default;
use crate::text::{decimal_digits, natural_text, schema_name};
use crate::{NAME, VERSION};
use vstd::prelude::*;
use vstd::string::StringExecFns;

pub mod config;
pub mod entity;
pub mod laws;
pub mod relation;

verus! {

/// The attribute that names the table and the schema of an entity.
pub open spec fn table_attribute(name: Seq<char>, schema: Seq<char>) -> Seq<char> {
    "#[sea_orm(table_name = \""@ + name + "\", schema_name = \""@ + schema + "\")]"@
}

/// The relations of a table: those to itself first, then those from it,
/// then those that point at it.
pub open spec fn table_relations(model: SematicSchemaBlockView, table: TableBlockView) -> Result<
    RelationsView,
    AnalysisError,
> {
    let start = RelationsView {
        variants: BlockView::fresh(2, Some("pub enum Relation"@)),
        links: Seq::empty(),
    };
    let itself = refs_in_direction(model.refs, table.ident, model.indexer, RefDirection::Itself);
    let to = refs_in_direction(model.refs, table.ident, model.indexer, RefDirection::To);
    let by = refs_in_direction(model.refs, table.ident, model.indexer, RefDirection::By);
    match add_relations(start, itself, RefDirection::Itself, 0) {
        Err(e) => Err(e),
        Ok(first) => match add_relations(first, to, RefDirection::To, 0) {
            Err(e) => Err(e),
            Ok(second) => add_relations(second, by, RefDirection::By, 0),
        },
    }
}

/// The module of a table, put together from its name in snake case, its
/// model and its relations.
pub open spec fn module_of_parts(
    table: TableBlockView,
    module_name: Seq<char>,
    fields: BlockView,
    relations: RelationsView,
) -> BlockView {
    BlockView::fresh(1, Some("pub mod "@ + module_name)).with_line(
        "use sea_orm::entity::prelude::*;"@,
    ).with_skip(1).with_line("#[derive(Clone, Debug, PartialEq, DeriveEntityModel)]"@).with_line(
        table_attribute(table.ident.name, schema_or_default(table.ident.schema)),
    ).with_block(fields).with_skip(1).with_line(
        "#[derive(Copy, Clone, Debug, EnumIter, DeriveRelation)]"@,
    ).with_block(relations.variants).with_blocks(relations.links).with_skip(1).with_line(
        "impl ActiveModelBehavior for ActiveModel {}"@,
    )
}

/// The module of a table; its model is made first, then its relations.
pub open spec fn table_module(model: SematicSchemaBlockView, table: TableBlockView) -> Result<
    BlockView,
    AnalysisError,
> {
    match table_model(table) {
        Err(e) => Err(e),
        Ok(fields) => match table_relations(model, table) {
            Err(e) => Err(e),
            Ok(relations) => Ok(
                module_of_parts(table, snake_case(table.ident.name), fields, relations),
            ),
        },
    }
}

/// The file with the modules of the tables from `from` on, an empty line
/// before each.
pub open spec fn with_entity_modules(file: BlockView, model: SematicSchemaBlockView, from: int) -> Result<
    BlockView,
    AnalysisError,
>
    decreases model.tables.len() - from,
{
    if from < 0 || from >= model.tables.len() {
        Ok(file)
    } else {
        match table_module(model, model.tables[from]) {
            Err(e) => Err(e),
            Ok(module) => with_entity_modules(file.with_skip(1).with_block(module), model, from + 1),
        }
    }
}

/// The Rust type in which the values of an enum are stored.
pub open spec fn rs_type(enum_type: EnumType) -> Seq<char> {
    match enum_type {
        EnumType::Integer => "i32"@,
        EnumType::String(_) => "String"@,
    }
}

/// An optional size as text.
pub open spec fn size_text(size: Option<u32>) -> Seq<char> {
    match size {
        Some(n) => "Some("@ + decimal_digits(n as nat) + ")"@,
        None => "None"@,
    }
}

/// The database type in which the values of an enum are stored.
pub open spec fn db_type(config: ConfigView) -> Seq<char> {
    match config.enum_type {
        EnumType::Integer => "Integer"@,
        EnumType::String(size) => if config.is_native_enum {
            "Enum"@
        } else {
            "String("@ + size_text(size) + ")"@
        },
    }
}

/// The attribute of a value of an enum: its position in the enum or its
/// text, according to how values are stored.
pub open spec fn value_attribute(enum_type: EnumType, position: nat, value: Seq<char>) -> Seq<
    char,
> {
    match enum_type {
        EnumType::Integer => "#[sea_orm(num_value = "@ + decimal_digits(position) + ")]"@,
        EnumType::String(_) => "#[sea_orm(string_value = \""@ + value + "\")]"@,
    }
}

/// The enum with one more variant, whose name in Pascal case is given.
pub open spec fn with_variant(
    block: BlockView,
    enum_type: EnumType,
    position: nat,
    value: Seq<char>,
    variant: Seq<char>,
) -> BlockView {
    block.with_line(value_attribute(enum_type, position, value)).with_line(variant + ","@)
}

/// The enum with the variants of the values from `from` on.
pub open spec fn with_variants(
    block: BlockView,
    values: Seq<Seq<char>>,
    enum_type: EnumType,
    from: int,
) -> BlockView
    decreases values.len() - from,
{
    if from < 0 || from >= values.len() {
        block
    } else {
        with_variants(
            with_variant(block, enum_type, from as nat, values[from], pascal_case(values[from])),
            values,
            enum_type,
            from + 1,
        )
    }
}

/// The attribute that says how an enum is stored and what it is called.
pub open spec fn enum_attribute(config: ConfigView, name: Seq<char>, schema: Seq<char>) -> Seq<
    char,
> {
    "#[sea_orm(rs_type = \""@ + rs_type(config.enum_type) + "\", db_type = \""@ + db_type(config)
        + "\", enum_name = \""@ + name + "\", schema_name = \""@ + schema + "\")]"@
}

/// The file with one more enum, whose variants are given as a block.
pub open spec fn with_enum_block(
    file: BlockView,
    block: EnumBlockView,
    config: ConfigView,
    variants: BlockView,
) -> BlockView {
    file.with_skip(1).with_line(
        "#[derive(Clone, Debug, PartialEq, EnumIter, DeriveActiveEnum)]"@,
    ).with_line(
        enum_attribute(config, block.id.name, schema_or_default(block.id.schema)),
    ).with_block(variants)
}

/// The variants of an enum as a block.
pub open spec fn enum_variants(block: EnumBlockView, config: ConfigView) -> BlockView {
    with_variants(
        BlockView::fresh(1, Some("pub enum "@ + pascal_case(block.id.name))),
        block.value_names(),
        config.enum_type,
        0,
    )
}

/// The file with the enums from `from` on.
pub open spec fn with_enum_modules(
    file: BlockView,
    enums: Seq<EnumBlockView>,
    config: ConfigView,
    from: int,
) -> BlockView
    decreases enums.len() - from,
{
    if from < 0 || from >= enums.len() {
        file
    } else {
        with_enum_modules(
            with_enum_block(file, enums[from], config, enum_variants(enums[from], config)),
            enums,
            config,
            from + 1,
        )
    }
}

/// The head of a generated file: a line that names this library and, if the
/// model has enums, the import that they need.
pub open spec fn file_head(model: SematicSchemaBlockView) -> BlockView {
    let head = BlockView::fresh(0, None).with_line(
        "//! Generated by "@ + NAME@ + " "@ + VERSION@,
    );
    if model.enums.len() == 0 {
        head
    } else {
        head.with_skip(1).with_line("use sea_orm::entity::prelude::*;"@)
    }
}

/// The text of the file generated for a model: the head, the modules of the
/// tables, the enums. It fails where a column type is unresolved or a
/// relation of a table has an unsupported kind or lacks a column.
pub open spec fn compile_spec(model: SematicSchemaBlockView, config: ConfigView) -> Result<
    Seq<char>,
    AnalysisError,
> {
    match with_entity_modules(file_head(model), model, 0) {
        Err(e) => Err(e),
        Ok(file) => Ok(with_enum_modules(file, model.enums, config, 0).rendered()),
    }
}

/// The relations of a table.
pub fn relations_of_table(ast: &SematicSchemaBlock, table: &TableBlock) -> (r: Result<
    Relations,
    AnalysisError,
>)
    ensures
        match r {
            Ok(s) => table_relations(ast@, table@) == Ok::<RelationsView, AnalysisError>(s@),
            Err(e) => table_relations(ast@, table@) == Err::<RelationsView, AnalysisError>(e),
        },
{
    let (rto_vec, rby_vec, rself_vec) = ast.get_table_refs(&table.ident);
    let links: Vec<Block> = Vec::new();
    assert(links.deep_view() =~= Seq::empty());
    let start = Relations { variants: Block::new(2, Some("pub enum Relation")), links };
    let first = match add_relations_of(start, &rself_vec, RefDirection::Itself) {
        Err(e) => {
            return Err(e);
        },
        Ok(s) => s,
    };
    let second = match add_relations_of(first, &rto_vec, RefDirection::To) {
        Err(e) => {
            return Err(e);
        },
        Ok(s) => s,
    };
    add_relations_of(second, &rby_vec, RefDirection::By)
}

/// Puts the module of a table together from its name in snake case, its
/// model and its relations.
pub fn module_from_parts(
    table: &TableBlock,
    module_name: &str,
    fields: Block,
    relations: Relations,
) -> (r: Block)
    ensures
        r@ == module_of_parts(table@, module_name@, fields@, relations@),
{
    let mut head = "pub mod ".to_owned();
    head.append(module_name);
    let mut attribute = "#[sea_orm(table_name = \"".to_owned();
    attribute.append(table.ident.name.as_str());
    attribute.append("\", schema_name = \"");
    attribute.append(schema_name(&table.ident.schema).as_str());
    attribute.append("\")]");
    let Relations { variants, links } = relations;
    Block::new(1, Some(head.as_str())).line("use sea_orm::entity::prelude::*;").line_skip(1).line(
        "#[derive(Clone, Debug, PartialEq, DeriveEntityModel)]",
    ).line(attribute.as_str()).block(fields).line_skip(1).line(
        "#[derive(Copy, Clone, Debug, EnumIter, DeriveRelation)]",
    ).block(variants).block_vec(links).line_skip(1).line(
        "impl ActiveModelBehavior for ActiveModel {}",
    )
}

/// The module of a table.
pub fn module_of_table(ast: &SematicSchemaBlock, table: &TableBlock) -> (r: Result<
    Block,
    AnalysisError,
>)
    ensures
        match r {
            Ok(b) => table_module(ast@, table@) == Ok::<BlockView, AnalysisError>(b@),
            Err(e) => table_module(ast@, table@) == Err::<BlockView, AnalysisError>(e),
        },
{
    let fields = match model_of_table(table) {
        Err(e) => {
            return Err(e);
        },
        Ok(b) => b,
    };
    let relations = match relations_of_table(ast, table) {
        Err(e) => {
            return Err(e);
        },
        Ok(s) => s,
    };
    let module_name = to_snake_case(table.ident.name.as_str());
    Ok(module_from_parts(table, module_name.as_str(), fields, relations))
}

/// Adds the modules of the tables to the file.
pub fn gen_entity_modules(ast: &SematicSchemaBlock, codegen: Codegen, config: &Config) -> (r:
    Result<Codegen, AnalysisError>)
    ensures
        match r {
            Ok(c) => with_entity_modules(codegen@, ast@, 0) == Ok::<BlockView, AnalysisError>(c@),
            Err(e) => with_entity_modules(codegen@, ast@, 0) == Err::<BlockView, AnalysisError>(
                e,
            ),
        },
{
    let mut file = codegen;
    let mut i: usize = 0;
    while i < ast.tables.len()
        invariant
            i <= ast.tables.len(),
            with_entity_modules(codegen@, ast@, 0) == with_entity_modules(file@, ast@, i as int),
        decreases ast.tables.len() - i,
    {
        assert(ast@.tables[i as int] == ast.tables[i as int]@);
        let module = match module_of_table(ast, &ast.tables[i]) {
            Err(e) => {
                return Err(e);
            },
            Ok(b) => b,
        };
        file = file.line_skip(1).block(module);
        i += 1;
    }
    Ok(file)
}

/// An optional size as text.
pub fn size_as_text(size: Option<u32>) -> (r: String)
    ensures
        r@ == size_text(size),
{
    match size {
        Some(n) => {
            let mut out = "Some(".to_owned();
            out.append(natural_text(n as u64).as_str());
            out.append(")");
            out
        },
        None => "None".to_owned(),
    }
}

/// The attribute that says how an enum is stored and what it is called.
pub fn attribute_of_enum(config: &Config, block: &EnumBlock) -> (r: String)
    ensures
        r@ == enum_attribute(config@, block@.id.name, schema_or_default(block@.id.schema)),
{
    let rs = match config.enum_type {
        EnumType::Integer => "i32",
        EnumType::String(_) => "String",
    };
    let db = match config.enum_type {
        EnumType::Integer => "Integer".to_owned(),
        EnumType::String(size) => if config.is_native_enum {
            "Enum".to_owned()
        } else {
            let mut out = "String(".to_owned();
            out.append(size_as_text(size).as_str());
            out.append(")");
            out
        },
    };
    let mut out = "#[sea_orm(rs_type = \"".to_owned();
    out.append(rs);
    out.append("\", db_type = \"");
    out.append(db.as_str());
    out.append("\", enum_name = \"");
    out.append(block.id.name.as_str());
    out.append("\", schema_name = \"");
    out.append(schema_name(&block.id.schema).as_str());
    out.append("\")]");
    out
}

/// Adds a variant, whose name in Pascal case is given, to an enum.
pub fn add_variant(
    block: Block,
    enum_type: EnumType,
    position: usize,
    value: &str,
    variant: &str,
) -> (r: Block)
    ensures
        r@ == with_variant(block@, enum_type, position as nat, value@, variant@),
{
    let attribute = match enum_type {
        EnumType::Integer => {
            let mut out = "#[sea_orm(num_value = ".to_owned();
            out.append(natural_text(position as u64).as_str());
            out.append(")]");
            out
        },
        EnumType::String(_) => {
            let mut out = "#[sea_orm(string_value = \"".to_owned();
            out.append(value);
            out.append("\")]");
            out
        },
    };
    let mut name = variant.to_owned();
    name.append(",");
    block.line(attribute.as_str()).line(name.as_str())
}

/// The variants of an enum as a block.
pub fn variants_of_enum(block: &EnumBlock, config: &Config) -> (r: Block)
    ensures
        r@ == enum_variants(block@, config@),
{
    let mut head = "pub enum ".to_owned();
    head.append(to_pascal_case(block.id.name.as_str()).as_str());
    let mut out = Block::new(1, Some(head.as_str()));
    let ghost values = block@.value_names();
    let mut i: usize = 0;
    while i < block.values.len()
        invariant
            i <= block.values.len(),
            values == block@.value_names(),
            enum_variants(block@, config@) == with_variants(
                out@,
                values,
                config@.enum_type,
                i as int,
            ),
        decreases block.values.len() - i,
    {
        let value = &block.values[i].value;
        assert(values[i as int] == value@);
        let variant = to_pascal_case(value.as_str());
        out = add_variant(out, config.enum_type, i, value.as_str(), variant.as_str());
        i += 1;
    }
    out
}

/// Adds the enums to the file.
pub fn gen_enum_modules(ast: &SematicSchemaBlock, codegen: Codegen, config: &Config) -> (r: Codegen)
    ensures
        r@ == with_enum_modules(codegen@, ast@.enums, config@, 0),
{
    let mut file = codegen;
    let mut i: usize = 0;
    while i < ast.enums.len()
        invariant
            i <= ast.enums.len(),
            with_enum_modules(codegen@, ast@.enums, config@, 0) == with_enum_modules(
                file@,
                ast@.enums,
                config@,
                i as int,
            ),
        decreases ast.enums.len() - i,
    {
        let block = &ast.enums[i];
        assert(ast@.enums[i as int] == block@);
        let variants = variants_of_enum(block, config);
        file = file.line_skip(1).line(
            "#[derive(Clone, Debug, PartialEq, EnumIter, DeriveActiveEnum)]",
        ).line(attribute_of_enum(config, block).as_str()).block(variants);
        i += 1;
    }
    file
}

/// Generates the text of the file of entities for a validated model.
pub fn compile(ast: SematicSchemaBlock, config: &Config) -> (r: Result<String, AnalysisError>)
    ensures
        match r {
            Ok(text) => compile_spec(ast@, config@) == Ok::<Seq<char>, AnalysisError>(text@),
            Err(e) => compile_spec(ast@, config@) == Err::<Seq<char>, AnalysisError>(e),
        },
        ast@.well_formed() ==> r is Ok,
{
    proof {
        if ast@.well_formed() {
            crate::compiler::laws::lemma_valid_model_compiles(ast@, config@);
        }
    }
    let mut head = "//! Generated by ".to_owned();
    head.append(NAME);
    head.append(" ");
    head.append(VERSION);
    let codegen = Codegen::new().line(head.as_str());
    let codegen = if ast.enums.len() == 0 {
        codegen
    } else {
        codegen.line_skip(1).line("use sea_orm::entity::prelude::*;")
    };
    let codegen = match gen_entity_modules(&ast, codegen, config) {
        Err(e) => {
            return Err(e);
        },
        Ok(c) => c,
    };
    let codegen = gen_enum_modules(&ast, codegen, config);
    Ok(codegen.to_string())
}

} // verus!
