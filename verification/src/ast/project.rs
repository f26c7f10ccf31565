//! The project declaration.

use crate::text::clone_opt_string;
use vstd::prelude::*;

verus! {

/// Overall description of the project.
#[derive(Debug, PartialEq, Eq, Default)]
pub struct ProjectBlock {
    pub name: String,
    pub database_type: String,
    pub note: Option<String>,
}

/// Mathematical model of a [`ProjectBlock`].
pub struct ProjectBlockView {
    pub name: Seq<char>,
    pub database_type: Seq<char>,
    pub note: Option<Seq<char>>,
}

impl View for ProjectBlock {
    type V = ProjectBlockView;

    open spec fn view(&self) -> ProjectBlockView {
        ProjectBlockView {
            name: self.name@,
            database_type: self.database_type@,
            note: self.note.deep_view(),
        }
    }
}

impl DeepView for ProjectBlock {
    type V = ProjectBlockView;

    open spec fn deep_view(&self) -> ProjectBlockView {
        self@
    }
}

impl Clone for ProjectBlock {
    fn clone(&self) -> (r: Self)
        ensures
            r@ == self@,
    {
        ProjectBlock {
            name: self.name.clone(),
            database_type: self.database_type.clone(),
            note: clone_opt_string(&self.note),
        }
    }
}

} // verus!
