//! Identifier rewriting between the systems-language naming convention and
//! the host-language one, performed by the inflector crate.

use vstd::prelude::*;
use inflector::Inflector;

verus! {

/// The camelCase form of an identifier, as inflector's `to_camel_case`
/// computes it.
pub uninterp spec fn camel_of(s: Seq<char>) -> Seq<char>;

/// The PascalCase form of an identifier, as inflector's `to_pascal_case`
/// computes it.
pub uninterp spec fn pascal_of(s: Seq<char>) -> Seq<char>;

/// Relies on inflector's `to_camel_case`: its result depends on the input
/// characters alone.
#[verifier::external_body]
pub(crate) fn to_camel(s: &str) -> (r: String)
    ensures
        r@ == camel_of(s@),
{
    s.to_camel_case()
}

/// Relies on inflector's `to_pascal_case`: its result depends on the input
/// characters alone.
#[verifier::external_body]
pub(crate) fn to_pascal(s: &str) -> (r: String)
    ensures
        r@ == pascal_of(s@),
{
    s.to_pascal_case()
}

} // verus!
