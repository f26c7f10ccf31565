//! The syntax tree of a schema description.

pub mod enums;
pub mod indexes;
pub mod project;
pub mod refs;
pub mod schema;
pub mod table;
pub mod table_group;
