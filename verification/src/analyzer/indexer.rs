//! Symbol tables: which tables, columns, enums and enum values a schema
//! description declares, and which table each alias stands for.

use crate::analyzer::err::AnalysisError;
use crate::analyzer::order::{first_failure, lemma_first_failure_hit, lemma_first_failure_step};
use crate::assoc::{
    assoc_map, lemma_assoc_map_absent, lemma_assoc_map_first, lemma_assoc_map_push,
    lemma_assoc_map_update,
};
use crate::ast::enums::{EnumBlock, EnumBlockView};
use crate::ast::refs::{RefIdent, RefIdentView};
use crate::ast::table::{TableBlock, TableBlockView};
use crate::ast::table_group::{TableGroupBlock, TableGroupBlockView, TableGroupId, TableGroupIdView};
use crate::schema_or_default;
use crate::text::{all_distinct, clone_strings, contains_string, schema_name};
use vstd::prelude::*;

verus! {

/// What one schema declares: for each table its column names, for each enum
/// its values.
pub struct IndexedSchemaBlockView {
    pub tables: Map<Seq<char>, Set<Seq<char>>>,
    pub enums: Map<Seq<char>, Set<Seq<char>>>,
}

impl IndexedSchemaBlockView {
    /// A schema that declares nothing.
    pub open spec fn empty() -> IndexedSchemaBlockView {
        IndexedSchemaBlockView { tables: Map::empty(), enums: Map::empty() }
    }
}

/// Mathematical model of an [`Indexer`]: what each schema declares, and the
/// schema and table that each alias stands for.
pub struct IndexerView {
    pub schemas: Map<Seq<char>, IndexedSchemaBlockView>,
    pub aliases: Map<Seq<char>, (Seq<char>, Seq<char>)>,
}

impl EnumBlockView {
    /// The values of the enum, in declaration order.
    pub open spec fn value_names(self) -> Seq<Seq<char>> {
        Seq::new(self.values.len(), |i: int| self.values[i].value)
    }
}

impl IndexerView {
    /// An index of nothing.
    pub open spec fn empty() -> IndexerView {
        IndexerView { schemas: Map::empty(), aliases: Map::empty() }
    }

    /// What the schema declares; nothing if the schema is unknown.
    pub open spec fn schema(self, schema: Seq<char>) -> IndexedSchemaBlockView {
        if self.schemas.contains_key(schema) {
            self.schemas[schema]
        } else {
            IndexedSchemaBlockView::empty()
        }
    }

    /// Whether the schema declares a table of that name.
    pub open spec fn has_table(self, schema: Seq<char>, name: Seq<char>) -> bool {
        self.schema(schema).tables.contains_key(name)
    }

    /// Whether the schema declares an enum of that name.
    pub open spec fn has_enum(self, schema: Seq<char>, name: Seq<char>) -> bool {
        self.schema(schema).enums.contains_key(name)
    }

    /// The index with one more table.
    pub open spec fn with_table(
        self,
        schema: Seq<char>,
        name: Seq<char>,
        columns: Set<Seq<char>>,
    ) -> IndexerView {
        let block = self.schema(schema);
        IndexerView {
            schemas: self.schemas.insert(
                schema,
                IndexedSchemaBlockView { tables: block.tables.insert(name, columns), ..block },
            ),
            ..self
        }
    }

    /// The index with one more enum.
    pub open spec fn with_enum(
        self,
        schema: Seq<char>,
        name: Seq<char>,
        values: Set<Seq<char>>,
    ) -> IndexerView {
        let block = self.schema(schema);
        IndexerView {
            schemas: self.schemas.insert(
                schema,
                IndexedSchemaBlockView { enums: block.enums.insert(name, values), ..block },
            ),
            ..self
        }
    }

    /// The index with one more alias.
    pub open spec fn with_alias(
        self,
        alias: Option<Seq<char>>,
        schema: Seq<char>,
        name: Seq<char>,
    ) -> IndexerView {
        match alias {
            Some(a) => IndexerView { aliases: self.aliases.insert(a, (schema, name)), ..self },
            None => self,
        }
    }

    /// The schema and table that an alias stands for.
    pub open spec fn refer_alias(self, name: Seq<char>) -> Option<(Seq<char>, Seq<char>)> {
        if self.aliases.contains_key(name) {
            Some(self.aliases[name])
        } else {
            None
        }
    }

    /// One side of a relation with its alias, if it names one, replaced by the
    /// schema and table the alias stands for.
    pub open spec fn resolve(self, ident: RefIdentView) -> RefIdentView {
        match self.refer_alias(ident.table) {
            Some((schema, table)) => RefIdentView {
                schema: Some(schema),
                table,
                compositions: ident.compositions,
            },
            None => ident,
        }
    }

    /// Whether the schema, the table in it and each of the columns exist.
    pub open spec fn lookup_table_fields(
        self,
        schema: Option<Seq<char>>,
        table: Seq<char>,
        columns: Seq<Seq<char>>,
    ) -> Result<(), AnalysisError> {
        let schema = schema_or_default(schema);
        if !self.schemas.contains_key(schema) {
            Err(AnalysisError::SchemaNotFound)
        } else if !self.schemas[schema].tables.contains_key(table) {
            Err(AnalysisError::TableNotFound)
        } else if exists|i: int|
            0 <= i < columns.len() && !self.schemas[schema].tables[table].contains(
                #[trigger] columns[i],
            ) {
            Err(AnalysisError::ColumnNotFound)
        } else {
            Ok(())
        }
    }

    /// Whether the schema, the enum in it and each of the values exist.
    pub open spec fn lookup_enum_values(
        self,
        schema: Option<Seq<char>>,
        enum_name: Seq<char>,
        values: Seq<Seq<char>>,
    ) -> Result<(), AnalysisError> {
        let schema = schema_or_default(schema);
        if !self.schemas.contains_key(schema) {
            Err(AnalysisError::SchemaNotFound)
        } else if !self.schemas[schema].enums.contains_key(enum_name) {
            Err(AnalysisError::EnumNotFound)
        } else if exists|i: int|
            0 <= i < values.len() && !self.schemas[schema].enums[enum_name].contains(
                #[trigger] values[i],
            ) {
            Err(AnalysisError::EnumValueNotFound)
        } else {
            Ok(())
        }
    }

    /// The index after one more table, or the rule that the table breaks.
    pub open spec fn index_table_step(self, table: TableBlockView) -> Result<
        IndexerView,
        AnalysisError,
    > {
        let schema = schema_or_default(table.ident.schema);
        let name = table.ident.name;
        if !table.column_names().no_duplicates() {
            Err(AnalysisError::DuplicateColumnName)
        } else if self.has_table(schema, name) {
            Err(AnalysisError::DuplicateTableName)
        } else if table.ident.alias is Some && self.aliases.contains_key(
            table.ident.alias.unwrap(),
        ) {
            Err(AnalysisError::DuplicateAlias)
        } else {
            Ok(
                self.with_table(schema, name, table.column_names().to_set()).with_alias(
                    table.ident.alias,
                    schema,
                    name,
                ),
            )
        }
    }

    /// The index after the tables, taken in order up to the first that breaks
    /// a rule, and that rule.
    pub open spec fn index_tables_from(self, tables: Seq<TableBlockView>) -> (
        IndexerView,
        Result<(), AnalysisError>,
    )
        decreases tables.len(),
    {
        if tables.len() == 0 {
            (self, Ok(()))
        } else {
            match self.index_table_step(tables[0]) {
                Err(e) => (self, Err(e)),
                Ok(next) => next.index_tables_from(tables.drop_first()),
            }
        }
    }

    /// The index after one more enum, or the rule that the enum breaks.
    pub open spec fn index_enum_step(self, block: EnumBlockView) -> Result<
        IndexerView,
        AnalysisError,
    > {
        let schema = schema_or_default(block.id.schema);
        if !block.value_names().no_duplicates() {
            Err(AnalysisError::DuplicateEnumValue)
        } else if self.has_enum(schema, block.id.name) {
            Err(AnalysisError::DuplicateEnumName)
        } else {
            Ok(self.with_enum(schema, block.id.name, block.value_names().to_set()))
        }
    }

    /// The index after the enums, taken in order up to the first that breaks a
    /// rule, and that rule.
    pub open spec fn index_enums_from(self, enums: Seq<EnumBlockView>) -> (
        IndexerView,
        Result<(), AnalysisError>,
    )
        decreases enums.len(),
    {
        if enums.len() == 0 {
            (self, Ok(()))
        } else {
            match self.index_enum_step(enums[0]) {
                Err(e) => (self, Err(e)),
                Ok(next) => next.index_enums_from(enums.drop_first()),
            }
        }
    }

    /// The schema and table that a member of a table group stands for.
    pub open spec fn resolve_member(self, member: TableGroupIdView) -> Result<
        (Seq<char>, Seq<char>),
        AnalysisError,
    > {
        match self.refer_alias(member.name_2) {
            Some(target) => if member.name_1 is Some {
                Err(AnalysisError::AliasFollowedBySchema)
            } else {
                Ok(target)
            },
            None => match self.lookup_table_fields(member.name_1, member.name_2, Seq::empty()) {
                Err(e) => Err(e),
                Ok(()) => Ok((schema_or_default(member.name_1), member.name_2)),
            },
        }
    }

    /// Whether a member of a table group stands for a table.
    pub open spec fn check_member(self, member: TableGroupIdView) -> Result<(), AnalysisError> {
        match self.resolve_member(member) {
            Err(e) => Err(e),
            Ok(_) => Ok(()),
        }
    }

    /// Whether each member of a table group stands for a table; if not, what
    /// is wrong with the first that does not.
    pub open spec fn check_table_group(self, group: TableGroupBlockView) -> Result<
        (),
        AnalysisError,
    > {
        first_failure(
            Seq::new(group.table_ids.len(), |i: int| self.check_member(group.table_ids[i])),
        )
    }

    /// Whether each member of each table group stands for a table; if not,
    /// what is wrong with the first that does not.
    pub open spec fn check_table_groups(self, groups: Seq<TableGroupBlockView>) -> Result<
        (),
        AnalysisError,
    > {
        first_failure(Seq::new(groups.len(), |i: int| self.check_table_group(groups[i])))
    }
}

/// A name and the names declared under it: a table with its columns, or an
/// enum with its values.
#[derive(Debug, PartialEq, Eq)]
pub struct NameList {
    name: String,
    members: Vec<String>,
}

/// What one schema declares.
#[derive(Debug, PartialEq, Eq)]
pub struct IndexedSchemaBlock {
    name: String,
    tables: Vec<NameList>,
    enums: Vec<NameList>,
}

/// An alias and the table it stands for.
#[derive(Debug, PartialEq, Eq)]
pub struct AliasEntry {
    alias: String,
    schema: String,
    table: String,
}

/// The symbol tables of one analysis.
#[derive(Debug, PartialEq, Eq)]
pub struct Indexer {
    schemas: Vec<IndexedSchemaBlock>,
    aliases: Vec<AliasEntry>,
}

impl NameList {
    /// The name and the names declared under it.
    pub closed spec fn model(&self) -> (Seq<char>, Seq<Seq<char>>) {
        (self.name@, self.members.deep_view())
    }
}

impl IndexedSchemaBlock {
    /// The name of the schema.
    pub closed spec fn key(&self) -> Seq<char> {
        self.name@
    }
}

impl AliasEntry {
    /// The alias, and the schema and table it stands for.
    pub closed spec fn model(&self) -> (Seq<char>, (Seq<char>, Seq<char>)) {
        (self.alias@, (self.schema@, self.table@))
    }
}

/// The names with what is declared under each, as an association list.
pub closed spec fn name_entries(list: Seq<NameList>) -> Seq<(Seq<char>, Set<Seq<char>>)> {
    Seq::new(list.len(), |i: int| (list[i].name@, list[i].members.deep_view().to_set()))
}

/// The schemas with what each declares, as an association list.
pub closed spec fn schema_entries(list: Seq<IndexedSchemaBlock>) -> Seq<
    (Seq<char>, IndexedSchemaBlockView),
> {
    Seq::new(list.len(), |i: int| (list[i].name@, list[i]@))
}

/// The aliases with what each stands for, as an association list.
pub closed spec fn alias_entries(list: Seq<AliasEntry>) -> Seq<
    (Seq<char>, (Seq<char>, Seq<char>)),
> {
    Seq::new(list.len(), |i: int| (list[i].alias@, (list[i].schema@, list[i].table@)))
}

impl View for IndexedSchemaBlock {
    type V = IndexedSchemaBlockView;

    closed spec fn view(&self) -> IndexedSchemaBlockView {
        IndexedSchemaBlockView {
            tables: assoc_map(name_entries(self.tables@)),
            enums: assoc_map(name_entries(self.enums@)),
        }
    }
}

impl View for Indexer {
    type V = IndexerView;

    closed spec fn view(&self) -> IndexerView {
        IndexerView {
            schemas: assoc_map(schema_entries(self.schemas@)),
            aliases: assoc_map(alias_entries(self.aliases@)),
        }
    }
}

impl DeepView for Indexer {
    type V = IndexerView;

    open spec fn deep_view(&self) -> IndexerView {
        self@
    }
}

impl Clone for NameList {
    fn clone(&self) -> (r: Self)
        ensures
            r.model() == self.model(),
    {
        NameList { name: self.name.clone(), members: clone_strings(&self.members) }
    }
}

/// A copy of a list of names.
fn clone_name_lists(list: &Vec<NameList>) -> (r: Vec<NameList>)
    ensures
        name_entries(r@) == name_entries(list@),
{
    let mut out: Vec<NameList> = Vec::new();
    let mut i: usize = 0;
    while i < list.len()
        invariant
            i <= list.len(),
            out.len() == i,
            forall|j: int| 0 <= j < i ==> out[j].model() == list[j].model(),
        decreases list.len() - i,
    {
        out.push(list[i].clone());
        i += 1;
    }
    assert(name_entries(out@) =~= name_entries(list@));
    out
}

impl Clone for IndexedSchemaBlock {
    fn clone(&self) -> (r: Self)
        ensures
            r.key() == self.key(),
            r@ == self@,
    {
        IndexedSchemaBlock {
            name: self.name.clone(),
            tables: clone_name_lists(&self.tables),
            enums: clone_name_lists(&self.enums),
        }
    }
}

impl Clone for AliasEntry {
    fn clone(&self) -> (r: Self)
        ensures
            r.model() == self.model(),
    {
        AliasEntry {
            alias: self.alias.clone(),
            schema: self.schema.clone(),
            table: self.table.clone(),
        }
    }
}

impl Clone for Indexer {
    fn clone(&self) -> (r: Self)
        ensures
            r@ == self@,
    {
        let mut schemas: Vec<IndexedSchemaBlock> = Vec::new();
        let mut i: usize = 0;
        while i < self.schemas.len()
            invariant
                i <= self.schemas.len(),
                schemas.len() == i,
                forall|j: int|
                    0 <= j < i ==> schemas[j].key() == self.schemas[j].key() && schemas[j]@
                        == self.schemas[j]@,
            decreases self.schemas.len() - i,
        {
            schemas.push(self.schemas[i].clone());
            i += 1;
        }
        let mut aliases: Vec<AliasEntry> = Vec::new();
        let mut k: usize = 0;
        while k < self.aliases.len()
            invariant
                k <= self.aliases.len(),
                aliases.len() == k,
                forall|j: int| 0 <= j < k ==> aliases[j].model() == self.aliases[j].model(),
            decreases self.aliases.len() - k,
        {
            aliases.push(self.aliases[k].clone());
            k += 1;
        }
        assert(schema_entries(schemas@) =~= schema_entries(self.schemas@));
        assert(alias_entries(aliases@) =~= alias_entries(self.aliases@));
        Indexer { schemas, aliases }
    }
}

impl Default for Indexer {
    fn default() -> (r: Self)
        ensures
            r@ == IndexerView::empty(),
    {
        Indexer::new()
    }
}

/// The position of the first entry with the given name.
fn find_name(list: &Vec<NameList>, name: &String) -> (r: Option<usize>)
    ensures
        r is Some == assoc_map(name_entries(list@)).contains_key(name@),
        r matches Some(i) ==> i < list.len() && list[i as int].name@ == name@ && assoc_map(
            name_entries(list@),
        )[name@] == list[i as int].members.deep_view().to_set(),
{
    let mut i: usize = 0;
    while i < list.len()
        invariant
            i <= list.len(),
            forall|j: int| 0 <= j < i ==> (#[trigger] name_entries(list@)[j]).0 != name@,
        decreases list.len() - i,
    {
        if list[i].name == *name {
            proof {
                lemma_assoc_map_first(name_entries(list@), name@, i as int);
            }
            return Some(i);
        }
        i += 1;
    }
    proof {
        lemma_assoc_map_absent(name_entries(list@), name@);
    }
    None
}

/// The names of the columns of a table, in declaration order.
fn names_of_columns(table: &TableBlock) -> (r: Vec<String>)
    ensures
        r.deep_view() == table@.column_names(),
{
    let mut out: Vec<String> = Vec::new();
    let mut i: usize = 0;
    while i < table.cols.len()
        invariant
            i <= table.cols.len(),
            out.len() == i,
            forall|j: int| 0 <= j < i ==> out[j]@ == table.cols[j].name@,
        decreases table.cols.len() - i,
    {
        out.push(table.cols[i].name.clone());
        i += 1;
    }
    assert(out.deep_view() =~= table@.column_names());
    out
}

/// The values of an enum, in declaration order.
fn names_of_values(block: &EnumBlock) -> (r: Vec<String>)
    ensures
        r.deep_view() == block@.value_names(),
{
    let mut out: Vec<String> = Vec::new();
    let mut i: usize = 0;
    while i < block.values.len()
        invariant
            i <= block.values.len(),
            out.len() == i,
            forall|j: int| 0 <= j < i ==> out[j]@ == block.values[j].value@,
        decreases block.values.len() - i,
    {
        out.push(block.values[i].value.clone());
        i += 1;
    }
    assert(out.deep_view() =~= block@.value_names());
    out
}

impl Indexer {
    /// An index of nothing.
    pub fn new() -> (r: Self)
        ensures
            r@ == IndexerView::empty(),
    {
        let r = Indexer { schemas: Vec::new(), aliases: Vec::new() };
        assert(r@.schemas =~= Map::empty());
        assert(r@.aliases =~= Map::empty());
        r
    }

    /// The position of the schema with the given name.
    fn find_schema(&self, name: &String) -> (r: Option<usize>)
        ensures
            r is Some == self@.schemas.contains_key(name@),
            r matches Some(i) ==> i < self.schemas.len() && self.schemas[i as int].name@ == name@
                && self@.schemas[name@] == self.schemas[i as int]@ && forall|j: int|
                0 <= j < i ==> (#[trigger] schema_entries(self.schemas@)[j]).0 != name@,
    {
        let mut i: usize = 0;
        while i < self.schemas.len()
            invariant
                i <= self.schemas.len(),
                forall|j: int|
                    0 <= j < i ==> (#[trigger] schema_entries(self.schemas@)[j]).0 != name@,
            decreases self.schemas.len() - i,
        {
            if self.schemas[i].name == *name {
                proof {
                    lemma_assoc_map_first(schema_entries(self.schemas@), name@, i as int);
                }
                return Some(i);
            }
            i += 1;
        }
        proof {
            lemma_assoc_map_absent(schema_entries(self.schemas@), name@);
        }
        None
    }

    /// The position of the alias with the given name.
    fn find_alias(&self, name: &String) -> (r: Option<usize>)
        ensures
            r is Some == self@.aliases.contains_key(name@),
            r matches Some(i) ==> i < self.aliases.len() && self@.aliases[name@] == (
                self.aliases[i as int].schema@,
                self.aliases[i as int].table@,
            ),
    {
        let mut i: usize = 0;
        while i < self.aliases.len()
            invariant
                i <= self.aliases.len(),
                forall|j: int|
                    0 <= j < i ==> (#[trigger] alias_entries(self.aliases@)[j]).0 != name@,
            decreases self.aliases.len() - i,
        {
            if self.aliases[i].alias == *name {
                proof {
                    lemma_assoc_map_first(alias_entries(self.aliases@), name@, i as int);
                }
                return Some(i);
            }
            i += 1;
        }
        proof {
            lemma_assoc_map_absent(alias_entries(self.aliases@), name@);
        }
        None
    }

    /// The schema and table that an alias stands for; `None` if the name is
    /// no alias.
    pub fn refer_alias(&self, name: &String) -> (r: Option<(String, String)>)
        ensures
            r.deep_view() == self@.refer_alias(name@),
    {
        match self.find_alias(name) {
            Some(i) => Some((self.aliases[i].schema.clone(), self.aliases[i].table.clone())),
            None => None,
        }
    }

    /// One side of a relation with its alias, if it names one, replaced by the
    /// schema and table the alias stands for.
    pub fn refer_ref_alias(&self, ident: &RefIdent) -> (r: RefIdent)
        ensures
            r@ == self@.resolve(ident@),
    {
        match self.refer_alias(&ident.table) {
            Some((schema, table)) => RefIdent {
                schema: Some(schema),
                table,
                compositions: clone_strings(&ident.compositions),
            },
            None => ident.clone(),
        }
    }

    /// Checks that the schema, the table in it and each of the columns exist.
    #[verifier::loop_isolation(false)]
    pub fn lookup_table_fields(
        &self,
        schema: &Option<String>,
        table: &String,
        columns: &Vec<String>,
    ) -> (r: Result<(), AnalysisError>)
        ensures
            r == self@.lookup_table_fields(schema.deep_view(), table@, columns.deep_view()),
    {
        let schema = schema_name(schema);
        match self.find_schema(&schema) {
            None => Err(AnalysisError::SchemaNotFound),
            Some(i) => {
                assert(self.schemas[i as int]@.tables == assoc_map(
                    name_entries(self.schemas[i as int].tables@),
                ));
                match find_name(&self.schemas[i].tables, table) {
                    None => Err(AnalysisError::TableNotFound),
                    Some(j) => {
                        let members = &self.schemas[i].tables[j].members;
                        let mut k: usize = 0;
                        while k < columns.len()
                            invariant
                                k <= columns.len(),
                                forall|n: int|
                                    0 <= n < k ==> members.deep_view().to_set().contains(
                                        #[trigger] columns.deep_view()[n],
                                    ),
                            decreases columns.len() - k,
                        {
                            if !contains_string(members, &columns[k]) {
                                assert(!members.deep_view().to_set().contains(
                                    columns.deep_view()[k as int],
                                ));
                                return Err(AnalysisError::ColumnNotFound);
                            }
                            k += 1;
                        }
                        Ok(())
                    },
                }
            },
        }
    }

    /// Checks that the schema, the enum in it and each of the values exist.
    #[verifier::loop_isolation(false)]
    pub fn lookup_enum_values(
        &self,
        schema: &Option<String>,
        enum_name: &String,
        values: &Vec<String>,
    ) -> (r: Result<(), AnalysisError>)
        ensures
            r == self@.lookup_enum_values(schema.deep_view(), enum_name@, values.deep_view()),
    {
        let schema = schema_name(schema);
        match self.find_schema(&schema) {
            None => Err(AnalysisError::SchemaNotFound),
            Some(i) => {
                assert(self.schemas[i as int]@.enums == assoc_map(
                    name_entries(self.schemas[i as int].enums@),
                ));
                match find_name(&self.schemas[i].enums, enum_name) {
                    None => Err(AnalysisError::EnumNotFound),
                    Some(j) => {
                        let members = &self.schemas[i].enums[j].members;
                        let mut k: usize = 0;
                        while k < values.len()
                            invariant
                                k <= values.len(),
                                forall|n: int|
                                    0 <= n < k ==> members.deep_view().to_set().contains(
                                        #[trigger] values.deep_view()[n],
                                    ),
                            decreases values.len() - k,
                        {
                            if !contains_string(members, &values[k]) {
                                assert(!members.deep_view().to_set().contains(
                                    values.deep_view()[k as int],
                                ));
                                return Err(AnalysisError::EnumValueNotFound);
                            }
                            k += 1;
                        }
                        Ok(())
                    },
                }
            },
        }
    }

    /// Adds a name with the names declared under it to a schema, making the
    /// schema if it is new. `tables` says whether the name is a table or an
    /// enum.
    fn insert_names(&mut self, schema: String, entry: NameList, tables: bool)
        requires
            tables ==> !old(self)@.has_table(schema@, entry.name@),
            !tables ==> !old(self)@.has_enum(schema@, entry.name@),
        ensures
            tables ==> final(self)@ == old(self)@.with_table(
                schema@,
                entry.name@,
                entry.members.deep_view().to_set(),
            ),
            !tables ==> final(self)@ == old(self)@.with_enum(
                schema@,
                entry.name@,
                entry.members.deep_view().to_set(),
            ),
    {
        let ghost before = self.schemas@;
        let ghost name = entry.name@;
        let ghost members = entry.members.deep_view().to_set();
        match self.find_schema(&schema) {
            Some(i) => {
                let mut block = self.schemas.remove(i);
                let ghost old_block = block;
                let ghost old_list = if tables {
                    block.tables@
                } else {
                    block.enums@
                };
                if tables {
                    block.tables.push(entry);
                } else {
                    block.enums.push(entry);
                }
                proof {
                    assert(name_entries(old_list.push(entry)) =~= name_entries(old_list).push(
                        (name, members),
                    ));
                    lemma_assoc_map_push(name_entries(old_list), name, members);
                }
                let ghost new_block = block;
                self.schemas.insert(i, block);
                proof {
                    assert(self.schemas@ =~= before.update(i as int, new_block));
                    assert(schema_entries(self.schemas@) =~= schema_entries(before).update(
                        i as int,
                        (schema_entries(before)[i as int].0, new_block@),
                    ));
                    lemma_assoc_map_update(schema_entries(before), i as int, new_block@);
                }
            },
            None => {
                let block = if tables {
                    IndexedSchemaBlock { name: schema, tables: vec![entry], enums: Vec::new() }
                } else {
                    IndexedSchemaBlock { name: schema, tables: Vec::new(), enums: vec![entry] }
                };
                proof {
                    let none = Seq::<NameList>::empty();
                    assert(name_entries(none) =~= Seq::empty());
                    assert(assoc_map(name_entries(none)) =~= Map::empty());
                    assert(name_entries(seq![entry]) =~= name_entries(none).push((name, members)));
                    lemma_assoc_map_push(name_entries(none), name, members);
                    if tables {
                        assert(block.tables@ =~= seq![entry]);
                        assert(block.enums@ =~= none);
                    } else {
                        assert(block.enums@ =~= seq![entry]);
                        assert(block.tables@ =~= none);
                    }
                    assert(schema_entries(before.push(block)) =~= schema_entries(before).push(
                        (block.name@, block@),
                    ));
                    lemma_assoc_map_push(schema_entries(before), block.name@, block@);
                }
                self.schemas.push(block);
            },
        }
    }

    /// Adds one table to the index, unless it breaks a rule; the index is
    /// then left as it was.
    pub fn index_table(&mut self, table: &TableBlock) -> (r: Result<(), AnalysisError>)
        ensures
            match r {
                Ok(()) => old(self)@.index_table_step(table@) == Ok::<IndexerView, AnalysisError>(
                    final(self)@,
                ),
                Err(e) => old(self)@.index_table_step(table@) == Err::<IndexerView, AnalysisError>(
                    e,
                ) && final(self)@ == old(self)@,
            },
    {
        let columns = names_of_columns(table);
        if !all_distinct(&columns) {
            return Err(AnalysisError::DuplicateColumnName);
        }
        let schema = schema_name(&table.ident.schema);
        match self.find_schema(&schema) {
            Some(i) => {
                assert(self.schemas[i as int]@.tables == assoc_map(
                    name_entries(self.schemas[i as int].tables@),
                ));
                if find_name(&self.schemas[i].tables, &table.ident.name).is_some() {
                    return Err(AnalysisError::DuplicateTableName);
                }
            },
            None => {},
        }
        match &table.ident.alias {
            Some(alias) => {
                if self.find_alias(alias).is_some() {
                    return Err(AnalysisError::DuplicateAlias);
                }
            },
            None => {},
        }
        let entry = NameList { name: table.ident.name.clone(), members: columns };
        let target = schema.clone();
        self.insert_names(schema, entry, true);
        match &table.ident.alias {
            Some(alias) => {
                let ghost before = self.aliases@;
                let item = AliasEntry {
                    alias: alias.clone(),
                    schema: target,
                    table: table.ident.name.clone(),
                };
                proof {
                    assert(alias_entries(before.push(item)) =~= alias_entries(before).push(
                        (item.alias@, (item.schema@, item.table@)),
                    ));
                    lemma_assoc_map_push(
                        alias_entries(before),
                        item.alias@,
                        (item.schema@, item.table@),
                    );
                }
                self.aliases.push(item);
            },
            None => {},
        }
        Ok(())
    }

    /// Adds the tables to the index, in order, up to the first that breaks a
    /// rule.
    pub fn index_tables(&mut self, tables: &Vec<TableBlock>) -> (r: Result<(), AnalysisError>)
        ensures
            (final(self)@, r) == old(self)@.index_tables_from(tables.deep_view()),
    {
        let ghost all = tables.deep_view();
        let mut i: usize = 0;
        assert(all.skip(0) =~= all);
        while i < tables.len()
            invariant
                i <= tables.len(),
                all == tables.deep_view(),
                old(self)@.index_tables_from(all) == self@.index_tables_from(all.skip(i as int)),
            decreases tables.len() - i,
        {
            proof {
                assert(all.skip(i as int)[0] == tables[i as int]@);
                assert(all.skip(i as int).drop_first() =~= all.skip(i + 1));
            }
            match self.index_table(&tables[i]) {
                Err(e) => {
                    return Err(e);
                },
                Ok(()) => {},
            }
            i += 1;
        }
        Ok(())
    }

    /// Adds one enum to the index, unless it breaks a rule; the index is then
    /// left as it was.
    pub fn index_enum(&mut self, block: &EnumBlock) -> (r: Result<(), AnalysisError>)
        ensures
            match r {
                Ok(()) => old(self)@.index_enum_step(block@) == Ok::<IndexerView, AnalysisError>(
                    final(self)@,
                ),
                Err(e) => old(self)@.index_enum_step(block@) == Err::<IndexerView, AnalysisError>(
                    e,
                ) && final(self)@ == old(self)@,
            },
    {
        let values = names_of_values(block);
        if !all_distinct(&values) {
            return Err(AnalysisError::DuplicateEnumValue);
        }
        let schema = schema_name(&block.id.schema);
        match self.find_schema(&schema) {
            Some(i) => {
                assert(self.schemas[i as int]@.enums == assoc_map(
                    name_entries(self.schemas[i as int].enums@),
                ));
                if find_name(&self.schemas[i].enums, &block.id.name).is_some() {
                    return Err(AnalysisError::DuplicateEnumName);
                }
            },
            None => {},
        }
        let entry = NameList { name: block.id.name.clone(), members: values };
        self.insert_names(schema, entry, false);
        Ok(())
    }

    /// Adds the enums to the index, in order, up to the first that breaks a
    /// rule.
    pub fn index_enums(&mut self, enums: &Vec<EnumBlock>) -> (r: Result<(), AnalysisError>)
        ensures
            (final(self)@, r) == old(self)@.index_enums_from(enums.deep_view()),
    {
        let ghost all = enums.deep_view();
        let mut i: usize = 0;
        assert(all.skip(0) =~= all);
        while i < enums.len()
            invariant
                i <= enums.len(),
                all == enums.deep_view(),
                old(self)@.index_enums_from(all) == self@.index_enums_from(all.skip(i as int)),
            decreases enums.len() - i,
        {
            proof {
                assert(all.skip(i as int)[0] == enums[i as int]@);
                assert(all.skip(i as int).drop_first() =~= all.skip(i + 1));
            }
            match self.index_enum(&enums[i]) {
                Err(e) => {
                    return Err(e);
                },
                Ok(()) => {},
            }
            i += 1;
        }
        Ok(())
    }

    /// The schema and table that a member of a table group stands for. A
    /// member that names an alias must not give a schema as well; any other
    /// member must name a table of the index.
    pub fn resolve_table_group_member(&self, member: &TableGroupId) -> (r: Result<
        (String, String),
        AnalysisError,
    >)
        ensures
            match r {
                Ok(target) => self@.resolve_member(member@) == Ok::<
                    (Seq<char>, Seq<char>),
                    AnalysisError,
                >((target.0@, target.1@)),
                Err(e) => self@.resolve_member(member@) == Err::<
                    (Seq<char>, Seq<char>),
                    AnalysisError,
                >(e),
            },
    {
        match self.refer_alias(&member.name_2) {
            Some(target) => {
                if member.name_1.is_some() {
                    Err(AnalysisError::AliasFollowedBySchema)
                } else {
                    Ok(target)
                }
            },
            None => {
                let none: Vec<String> = Vec::new();
                assert(none.deep_view() =~= Seq::empty());
                match self.lookup_table_fields(&member.name_1, &member.name_2, &none) {
                    Err(e) => Err(e),
                    Ok(()) => Ok((schema_name(&member.name_1), member.name_2.clone())),
                }
            },
        }
    }

    /// Checks that each member of a table group stands for a table.
    pub fn index_table_group(&self, group: &TableGroupBlock) -> (r: Result<(), AnalysisError>)
        ensures
            r == self@.check_table_group(group@),
    {
        let ghost results = Seq::new(
            group@.table_ids.len(),
            |i: int| self@.check_member(group@.table_ids[i]),
        );
        assert(results.skip(0) =~= results);
        let mut i: usize = 0;
        while i < group.table_ids.len()
            invariant
                i <= group.table_ids.len(),
                results == Seq::new(
                    group@.table_ids.len(),
                    |i: int| self@.check_member(group@.table_ids[i]),
                ),
                first_failure(results) == first_failure(results.skip(i as int)),
            decreases group.table_ids.len() - i,
        {
            assert(group@.table_ids[i as int] == group.table_ids[i as int]@);
            match self.resolve_table_group_member(&group.table_ids[i]) {
                Err(e) => {
                    proof {
                        lemma_first_failure_hit(results, i as int);
                    }
                    return Err(e);
                },
                Ok(_) => {
                    proof {
                        lemma_first_failure_step(results, i as int);
                    }
                },
            }
            i += 1;
        }
        Ok(())
    }

    /// Checks that each member of each table group stands for a table.
    pub fn index_table_groups(&self, groups: &Vec<TableGroupBlock>) -> (r: Result<
        (),
        AnalysisError,
    >)
        ensures
            r == self@.check_table_groups(groups.deep_view()),
    {
        let ghost results = Seq::new(
            groups.deep_view().len(),
            |i: int| self@.check_table_group(groups.deep_view()[i]),
        );
        assert(results.skip(0) =~= results);
        let mut i: usize = 0;
        while i < groups.len()
            invariant
                i <= groups.len(),
                results == Seq::new(
                    groups.deep_view().len(),
                    |i: int| self@.check_table_group(groups.deep_view()[i]),
                ),
                first_failure(results) == first_failure(results.skip(i as int)),
            decreases groups.len() - i,
        {
            assert(groups.deep_view()[i as int] == groups[i as int]@);
            match self.index_table_group(&groups[i]) {
                Err(e) => {
                    proof {
                        lemma_first_failure_hit(results, i as int);
                    }
                    return Err(e);
                },
                Ok(()) => {
                    proof {
                        lemma_first_failure_step(results, i as int);
                    }
                },
            }
            i += 1;
        }
        Ok(())
    }
}

} // verus!
