//! Options of code generation.

use vstd::prelude::*;

verus! {

/// How the values of an enum are stored.
#[derive(Debug, PartialEq, Eq, Clone, Copy)]
pub enum EnumType {
    /// As text, of at most the given number of characters if one is given.
    String(Option<u32>),
    /// As a number: the position of the value in its enum.
    Integer,
}

/// The database for which entities are generated.
#[derive(Debug, PartialEq, Eq, Clone, Copy, Structural)]
pub enum Target {
    Postgres,
}

/// Options of code generation.
#[derive(Debug, PartialEq, Eq)]
pub struct Config {
    /// Path of the input file.
    pub in_path: String,
    /// Path of the output file.
    pub out_path: String,
    /// The database for which entities are generated.
    pub target: Target,
    /// How the values of an enum are stored.
    pub enum_type: EnumType,
    /// Whether the database's own enums are used.
    pub is_native_enum: bool,
}

/// Mathematical model of a [`Config`].
pub struct ConfigView {
    pub in_path: Seq<char>,
    pub out_path: Seq<char>,
    pub target: Target,
    pub enum_type: EnumType,
    pub is_native_enum: bool,
}

impl View for Config {
    type V = ConfigView;

    open spec fn view(&self) -> ConfigView {
        ConfigView {
            in_path: self.in_path@,
            out_path: self.out_path@,
            target: self.target,
            enum_type: self.enum_type,
            is_native_enum: self.is_native_enum,
        }
    }
}

impl ConfigView {
    /// What is missing in the options, if anything: the input path first,
    /// then the output path.
    pub open spec fn missing(self) -> Option<Seq<char>> {
        if self.in_path.len() == 0 {
            Some("in_path is not set"@)
        } else if self.out_path.len() == 0 {
            Some("out_path is not set"@)
        } else {
            None
        }
    }
}

impl Default for Config {
    fn default() -> (r: Self)
        ensures
            r@ == (ConfigView {
                in_path: Seq::empty(),
                out_path: Seq::empty(),
                target: Target::Postgres,
                enum_type: EnumType::String(None),
                is_native_enum: true,
            }),
    {
        Config {
            in_path: String::new(),
            out_path: String::new(),
            target: Target::Postgres,
            enum_type: EnumType::String(None),
            is_native_enum: true,
        }
    }
}

impl Config {
    /// Says what is missing in the options, if anything.
    pub fn validate(&self) -> (r: Option<&'static str>)
        ensures
            r.deep_view() == self@.missing(),
    {
        if self.in_path.as_str().is_empty() {
            Some("in_path is not set")
        } else if self.out_path.as_str().is_empty() {
            Some("out_path is not set")
        } else {
            None
        }
    }
}

} // verus!
