//! Turning a validated model into source text for a target.

use crate::analyzer::SematicSchemaBlock;
use crate::text::clone_opt_string;
use vstd::prelude::*;

pub mod config;
pub mod traits;

verus! {

/// What source text is generated for.
#[derive(Debug, PartialEq, Eq, Clone, Copy, Structural)]
pub enum Target {
    SeaORMPostgreSQL,
}

/// Where a description is read from, where the generated text goes, and
/// what it is generated for.
#[derive(Debug, PartialEq, Eq)]
pub struct Config {
    in_path: String,
    out_path: Option<String>,
    target: Target,
}

/// Mathematical model of a [`Config`].
pub struct ConfigView {
    pub in_path: Seq<char>,
    pub out_path: Option<Seq<char>>,
    pub target: Target,
}

impl View for Config {
    type V = ConfigView;

    closed spec fn view(&self) -> ConfigView {
        ConfigView {
            in_path: self.in_path@,
            out_path: self.out_path.deep_view(),
            target: self.target,
        }
    }
}

impl Clone for Config {
    fn clone(&self) -> (r: Self)
        ensures
            r@ == self@,
    {
        Config {
            in_path: self.in_path.clone(),
            out_path: clone_opt_string(&self.out_path),
            target: self.target,
        }
    }
}

impl Config {
    /// Options that name the input and the target, and no output yet.
    pub fn new(in_path: &str, target: Target) -> (r: Self)
        ensures
            r@ == (ConfigView { in_path: in_path@, out_path: None, target }),
    {
        Config { in_path: in_path.to_owned(), out_path: None, target }
    }

    /// The options with the output set.
    pub fn set_out_path(self, path: &str) -> (r: Self)
        ensures
            r@ == (ConfigView { out_path: Some(path@), ..self@ }),
    {
        Config { in_path: self.in_path, out_path: Some(path.to_owned()), target: self.target }
    }

    /// Where the description is read from.
    pub fn in_path(&self) -> (r: &String)
        ensures
            r@ == self@.in_path,
    {
        &self.in_path
    }

    /// Where the generated text goes, if it is set.
    pub fn out_path(&self) -> (r: &Option<String>)
        ensures
            r.deep_view() == self@.out_path,
    {
        &self.out_path
    }

    /// What the text is generated for.
    pub fn target(&self) -> (r: Target)
        ensures
            r == self@.target,
    {
        self.target
    }
}

/// The source text for a model and a target.
pub fn transpile(ast: SematicSchemaBlock, target: &Target) -> (r: Result<String, String>)
    ensures
        r matches Ok(text) && text@ == Seq::<char>::empty(),
{
    match target {
        Target::SeaORMPostgreSQL => transpile_sea_orm_postgresql(ast),
    }
}

/// The source text for a model; it is empty.
pub fn transpile_sea_orm_postgresql(ast: SematicSchemaBlock) -> (r: Result<String, String>)
    ensures
        r matches Ok(text) && text@ == Seq::<char>::empty(),
{
    Ok(String::new())
}

} // verus!
