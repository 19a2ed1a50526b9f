//! Case normalization of identifiers.
//!
//! The lexical conversions themselves are delegated to the `heck` crate;
//! their results are pure functions of the argument's characters, named here
//! so contracts can speak of them.

use vstd::prelude::*;

verus! {

/// The snake_case form of a character sequence, as `heck` computes it.
pub uninterp spec fn snake_of(s: Seq<char>) -> Seq<char>;

/// The CamelCase form of a character sequence, as `heck` computes it.
pub uninterp spec fn camel_of(s: Seq<char>) -> Seq<char>;

/// Relies on heck's `SnekCase` for `str`: the result depends on the
/// argument's characters alone.
#[verifier::external_body]
pub(crate) fn to_snek_case(s: &str) -> (r: String)
    ensures
        r@ == snake_of(s@),
{
    heck::SnekCase::to_snek_case(s)
}

/// Relies on heck's `CamelCase` for `str`: the result depends on the
/// argument's characters alone.
#[verifier::external_body]
pub(crate) fn to_camel_case(s: &str) -> (r: String)
    ensures
        r@ == camel_of(s@),
{
    heck::CamelCase::to_camel_case(s)
}

} // verus!
