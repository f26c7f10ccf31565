//! Semantic analysis of database schema descriptions and generation of entity
//! definitions from the validated model.

use vstd::prelude::*;

pub mod analyzer;
pub mod assoc;
pub mod ast;
pub mod casing;
pub mod compiler;
pub mod generator;
pub mod parser;
pub mod text;
pub mod transpiler;

verus! {

/// Name of the schema a table or enum belongs to when it declares none.
pub const DEFAULT_SCHEMA: &'static str = "public";

/// Name of this library, as it stands in the head of generated files.
pub const NAME: &'static str = "sea_orm_dbml";

/// Version of this library, as it stands in the head of generated files.
pub const VERSION: &'static str = "0.1.0";

/// The schema name as a sequence of characters, with the default filled in.
pub open spec fn schema_or_default(schema: Option<Seq<char>>) -> Seq<char> {
    match schema {
        Some(s) => s,
        None => DEFAULT_SCHEMA@,
    }
}

} // verus!
