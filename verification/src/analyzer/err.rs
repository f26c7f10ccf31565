//! The ways in which analysis can fail.

use vstd::prelude::*;

verus! {

/// The rule that a schema description breaks.
#[derive(Debug, PartialEq, Eq, Clone, Copy, Structural)]
pub enum AnalysisError {
    /// No table or enum is declared in the schema.
    SchemaNotFound,
    /// The schema holds no table of that name.
    TableNotFound,
    /// The table holds no column of that name.
    ColumnNotFound,
    /// The schema holds no enum of that name.
    EnumNotFound,
    /// The enum holds no such value.
    EnumValueNotFound,
    /// Two tables share a schema and a name.
    DuplicateTableName,
    /// Two columns of one table share a name.
    DuplicateColumnName,
    /// Two enums share a schema and a name.
    DuplicateEnumName,
    /// Two values of one enum are equal.
    DuplicateEnumValue,
    /// Two tables share an alias.
    DuplicateAlias,
    /// A table marks more than one column as primary key.
    DuplicatePrimaryKey,
    /// A primary-key column is nullable.
    NullablePrimaryKey,
    /// A primary-key column is an array.
    ArrayPrimaryKey,
    /// The relation names no single owning side.
    UnsupportedRelationKind,
    /// A side of the relation does not consist of exactly one column.
    UnsupportedCompositeReference,
    /// The two columns of a relation differ in type.
    MismatchedForeignKeyType,
    /// Two relations are declared for the same owning column.
    DuplicateRelation,
    /// The type of a column is neither a scalar kind nor a declared enum.
    UnresolvedType,
    /// The arguments of a column type do not fit its kind.
    InvalidTypeArguments,
    /// A table-group member gives a schema together with an alias.
    AliasFollowedBySchema,
    /// The description has no project declaration.
    ProjectBlockMissing,
    /// A relation declared at top level lacks its left side.
    MalformedReference,
}

} // verus!
