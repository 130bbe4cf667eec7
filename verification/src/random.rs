//! The randomly generated 128-bit values that identifiers are made from, and
//! their renderings as text. Both come from the `uuid` crate; this module
//! states what the rest of the library relies on.

use vstd::prelude::*;
use uuid::Uuid;
use crate::canonical::{hyphenated_text, is_random_version, simple_text};

verus! {

/// `Uuid::new_v4`, read as a number by `Uuid::as_u128`. The crate draws 128
/// random bits from the operating system and then forces the version digit to
/// 4 and the two variant bits to `10`. Which value comes back is left open;
/// only those marks are claimed. (The call panics if the operating system has
/// no random bits to give.)
#[verifier::external_body]
pub(crate) fn fresh_random_value() -> (value: u128)
    ensures
        is_random_version(value),
{
    Uuid::new_v4().as_u128()
}

/// `Display` of the `Uuid` made by `Uuid::from_u128`: the lower-case
/// hyphenated form of the value, 32 hexadecimal digits, most significant
/// first, grouped 8-4-4-4-12.
#[verifier::external_body]
pub(crate) fn hyphenated_string(value: u128) -> (text: String)
    ensures
        text@ == hyphenated_text(value),
{
    Uuid::from_u128(value).to_string()
}

/// `Display` of `Uuid::simple`, for the `Uuid` made by `Uuid::from_u128`: the
/// same 32 lower-case digits without separators.
#[verifier::external_body]
pub(crate) fn simple_string(value: u128) -> (text: String)
    ensures
        text@ == simple_text(value),
{
    Uuid::from_u128(value).simple().to_string()
}

} // verus!
