//! Names in the letter cases that generated code asks for.

use inflector::Inflector;
use vstd::prelude::*;

verus! {

/// The text in Pascal case, as `Inflector::to_pascal_case` gives it.
pub uninterp spec fn pascal_case(text: Seq<char>) -> Seq<char>;

/// The text in snake case, as `Inflector::to_snake_case` gives it.
pub uninterp spec fn snake_case(text: Seq<char>) -> Seq<char>;

/// Calls `Inflector::to_pascal_case` of the crate `Inflector` on the text.
/// The result depends on the text alone; it is known here only by its name,
/// [`pascal_case`].
#[verifier::external_body]
pub(crate) fn to_pascal_case(text: &str) -> (r: String)
    ensures
        r@ == pascal_case(text@),
{
    text.to_pascal_case()
}

/// Calls `Inflector::to_snake_case` of the crate `Inflector` on the text. The
/// result depends on the text alone; it is known here only by its name,
/// [`snake_case`].
#[verifier::external_body]
pub(crate) fn to_snake_case(text: &str) -> (r: String)
    ensures
        r@ == snake_case(text@),
{
    text.to_snake_case()
}

} // verus!
