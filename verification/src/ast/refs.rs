//! Relations between tables, as declared.

use crate::text::{clone_opt_string, clone_strings, opt_string_eq, str_eq, strings_eq};
use vstd::prelude::*;

verus! {

/// Cardinality of a relation.
#[derive(Debug, PartialEq, Eq, Clone, Copy, Default, Structural)]
pub enum Relation {
    #[default]
    Undef,
    One2One,
    One2Many,
    Many2One,
    Many2Many,
}

impl View for Relation {
    type V = Relation;

    open spec fn view(&self) -> Relation {
        *self
    }
}

impl DeepView for Relation {
    type V = Relation;

    open spec fn deep_view(&self) -> Relation {
        *self
    }
}

impl Relation {
    /// The relation that a symbol of the schema language stands for, if any.
    pub open spec fn of_symbol(symbol: Seq<char>) -> Option<Relation> {
        if symbol == "<"@ {
            Some(Relation::One2One)
        } else if symbol == ">"@ {
            Some(Relation::One2Many)
        } else if symbol == "-"@ {
            Some(Relation::Many2One)
        } else if symbol == "<>"@ {
            Some(Relation::Many2Many)
        } else {
            None
        }
    }

    /// Reads a relation symbol; `None` for any other text.
    pub fn match_type(value: &str) -> (r: Option<Self>)
        ensures
            r == Self::of_symbol(value@),
    {
        if str_eq(value, "<") {
            Some(Relation::One2One)
        } else if str_eq(value, ">") {
            Some(Relation::One2Many)
        } else if str_eq(value, "-") {
            Some(Relation::Many2One)
        } else if str_eq(value, "<>") {
            Some(Relation::Many2Many)
        } else {
            None
        }
    }

    /// Whether one side of the relation alone holds the foreign key.
    pub open spec fn has_owning_side(self) -> bool {
        self == Relation::One2One || self == Relation::Many2One
    }
}

/// What happens to the owning row when the row it refers to changes.
#[derive(Debug, PartialEq, Eq, Clone, Copy, Structural)]
pub enum RelationAction {
    NoAction,
    Cascade,
    Restrict,
    SetNull,
    SetDefault,
}

impl RelationAction {
    /// The action that a phrase of the schema language stands for, if any.
    pub open spec fn of_phrase(phrase: Seq<char>) -> Option<RelationAction> {
        if phrase == "no action"@ {
            Some(RelationAction::NoAction)
        } else if phrase == "cascade"@ {
            Some(RelationAction::Cascade)
        } else if phrase == "restrict"@ {
            Some(RelationAction::Restrict)
        } else if phrase == "set null"@ {
            Some(RelationAction::SetNull)
        } else if phrase == "set default"@ {
            Some(RelationAction::SetDefault)
        } else {
            None
        }
    }

    /// The phrase of the schema language that stands for the action.
    pub open spec fn phrase(self) -> Seq<char> {
        match self {
            RelationAction::NoAction => "no action"@,
            RelationAction::Cascade => "cascade"@,
            RelationAction::Restrict => "restrict"@,
            RelationAction::SetNull => "set null"@,
            RelationAction::SetDefault => "set default"@,
        }
    }

    /// The phrase of the schema language that stands for the action.
    pub fn to_string(&self) -> (r: String)
        ensures
            r@ == self.phrase(),
    {
        match self {
            RelationAction::NoAction => "no action".to_owned(),
            RelationAction::Cascade => "cascade".to_owned(),
            RelationAction::Restrict => "restrict".to_owned(),
            RelationAction::SetNull => "set null".to_owned(),
            RelationAction::SetDefault => "set default".to_owned(),
        }
    }

    /// Reads an action phrase; `None` for any other text.
    pub fn match_type(value: &str) -> (r: Option<Self>)
        ensures
            r == Self::of_phrase(value@),
    {
        if str_eq(value, "no action") {
            Some(RelationAction::NoAction)
        } else if str_eq(value, "cascade") {
            Some(RelationAction::Cascade)
        } else if str_eq(value, "restrict") {
            Some(RelationAction::Restrict)
        } else if str_eq(value, "set null") {
            Some(RelationAction::SetNull)
        } else if str_eq(value, "set default") {
            Some(RelationAction::SetDefault)
        } else {
            None
        }
    }
}

/// Settings of a relation.
#[derive(Debug, PartialEq, Eq, Clone, Copy, Default)]
pub struct RelationSettings {
    pub on_delete: Option<RelationAction>,
    pub on_update: Option<RelationAction>,
}

impl View for RelationSettings {
    type V = RelationSettings;

    open spec fn view(&self) -> RelationSettings {
        *self
    }
}

impl DeepView for RelationSettings {
    type V = RelationSettings;

    open spec fn deep_view(&self) -> RelationSettings {
        *self
    }
}

/// One side of a relation: a table and the columns of the key.
#[derive(Debug, PartialEq, Eq, Default)]
pub struct RefIdent {
    pub schema: Option<String>,
    pub table: String,
    pub compositions: Vec<String>,
}

/// Mathematical model of a [`RefIdent`].
pub struct RefIdentView {
    pub schema: Option<Seq<char>>,
    pub table: Seq<char>,
    pub compositions: Seq<Seq<char>>,
}

impl View for RefIdent {
    type V = RefIdentView;

    open spec fn view(&self) -> RefIdentView {
        RefIdentView {
            schema: self.schema.deep_view(),
            table: self.table@,
            compositions: self.compositions.deep_view(),
        }
    }
}

impl DeepView for RefIdent {
    type V = RefIdentView;

    open spec fn deep_view(&self) -> RefIdentView {
        self@
    }
}

impl Clone for RefIdent {
    fn clone(&self) -> (r: Self)
        ensures
            r@ == self@,
    {
        RefIdent {
            schema: clone_opt_string(&self.schema),
            table: self.table.clone(),
            compositions: clone_strings(&self.compositions),
        }
    }
}

impl RefIdent {
    /// Whether two sides name the same schema, table and columns, as written.
    pub fn same_as(&self, other: &RefIdent) -> (r: bool)
        ensures
            r == (self@ == other@),
    {
        opt_string_eq(&self.schema, &other.schema) && self.table == other.table && strings_eq(
            &self.compositions,
            &other.compositions,
        )
    }
}

/// A relation as declared, at top level or on a column. The left side is
/// absent on a column, where the column itself is meant.
#[derive(Debug, PartialEq, Eq, Default)]
pub struct RefBlock {
    pub rel: Relation,
    pub lhs: Option<RefIdent>,
    pub rhs: RefIdent,
    pub settings: Option<RelationSettings>,
}

/// Mathematical model of a [`RefBlock`].
pub struct RefBlockView {
    pub rel: Relation,
    pub lhs: Option<RefIdentView>,
    pub rhs: RefIdentView,
    pub settings: Option<RelationSettings>,
}

impl View for RefBlock {
    type V = RefBlockView;

    open spec fn view(&self) -> RefBlockView {
        RefBlockView {
            rel: self.rel,
            lhs: self.lhs.deep_view(),
            rhs: self.rhs@,
            settings: self.settings,
        }
    }
}

impl DeepView for RefBlock {
    type V = RefBlockView;

    open spec fn deep_view(&self) -> RefBlockView {
        self@
    }
}

impl Clone for RefBlock {
    fn clone(&self) -> (r: Self)
        ensures
            r@ == self@,
    {
        let lhs = match &self.lhs {
            Some(l) => Some(l.clone()),
            None => None,
        };
        RefBlock { rel: self.rel, lhs, rhs: self.rhs.clone(), settings: self.settings }
    }
}

} // verus!
