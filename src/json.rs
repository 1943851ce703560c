//! Arbitrary JSON values carried through the schema models untouched.
use vstd::prelude::*;

verus! {

/// A JSON value (`default`, `example`, `enum`, `const` and friends). The library
/// only moves such values from one document to another and never looks inside.
#[verifier::external_type_specification]
#[verifier::external_body]
pub struct ExValue(serde_json::Value);

/// A JSON number (bounds, lengths, multiples), carried as the document wrote it.
#[verifier::external_type_specification]
#[verifier::external_body]
pub struct ExNumber(serde_json::Number);

/// Relies on the `Clone` that `serde_json::Value` derives: a copy of the same value.
pub assume_specification[ <serde_json::Value as Clone>::clone ](v: &serde_json::Value) -> (r:
    serde_json::Value)
    ensures
        r == *v,
;

/// Relies on the `Clone` that `serde_json::Number` derives: a copy of the same number.
pub assume_specification[ <serde_json::Number as Clone>::clone ](n: &serde_json::Number) -> (r:
    serde_json::Number)
    ensures
        r == *n,
;

/// What `serde_json::Number::as_i64` returns for `n`: the number as an `i64`
/// where it is an integer in range, else nothing.
pub uninterp spec fn i64_of(n: serde_json::Number) -> Option<i64>;

/// Relies on `serde_json::Number::as_i64`, which depends on the number alone.
#[verifier::external_body]
pub(crate) fn number_as_i64(n: &serde_json::Number) -> (r: Option<i64>)
    ensures
        r == i64_of(*n),
{
    n.as_i64()
}

} // verus!
