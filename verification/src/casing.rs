//! Naming-convention derivation: case conversion of type names into
//! exported prefixes and C type names, done by the case-conversion crate.

use vstd::prelude::*;

verus! {

/// The snake_case form of a character sequence, as the case-conversion
/// crate computes it.
pub uninterp spec fn snake_of(s: Seq<char>) -> Seq<char>;

/// The UpperCamelCase form of a character sequence, as the case-conversion
/// crate computes it.
pub uninterp spec fn pascal_of(s: Seq<char>) -> Seq<char>;

/// Relies on heck's `ToSnakeCase for str`: the result is a pure function
/// of the input characters (word boundaries, lowercasing, underscores).
#[verifier::external_body]
pub(crate) fn to_snake_case(s: &str) -> (r: String)
    ensures
        r@ == snake_of(s@),
{
    heck::ToSnakeCase::to_snake_case(s)
}

/// Relies on heck's `ToPascalCase for str` (upper camel case): the result
/// is a pure function of the input characters.
#[verifier::external_body]
pub(crate) fn to_pascal_case(s: &str) -> (r: String)
    ensures
        r@ == pascal_of(s@),
{
    heck::ToPascalCase::to_pascal_case(s)
}

} // verus!
