//! Kinds of databases.

use vstd::prelude::*;

verus! {

/// A kind of database that a project can name.
#[derive(Debug, PartialEq, Eq, Clone, Copy, Structural)]
pub enum DatabaseType {
    PostgreSQL,
    Oracle,
    MySQL,
    MongoDB,
    MSSQL,
    SQLite,
    MariaDB,
}

impl DatabaseType {
    /// Whether entities can be generated for the database: for PostgreSQL,
    /// MySQL and SQLite.
    pub open spec fn supported(self) -> bool {
        self == DatabaseType::PostgreSQL || self == DatabaseType::MySQL || self
            == DatabaseType::SQLite
    }

    /// Whether entities can be generated for the database.
    pub fn is_supported(&self) -> (r: bool)
        ensures
            r == self.supported(),
    {
        match self {
            DatabaseType::PostgreSQL | DatabaseType::MySQL | DatabaseType::SQLite => true,
            _ => false,
        }
    }
}

} // verus!
