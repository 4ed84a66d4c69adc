//! Identifiers that arrive as text.

use vstd::prelude::*;

verus! {

/// The 128-bit value that the `uuid` crate reads from `text`, or `None`
/// where it reads no UUID from it.
pub uninterp spec fn parsed_uuid(text: Seq<char>) -> Option<u128>;

/// Calls `uuid::Uuid::parse_str` and hands the UUID out as the number that
/// `uuid::Uuid::as_u128` makes of it.
///
/// Trusted, not proved: that the outcome depends on the characters of `text`
/// alone, which is all that [`parsed_uuid`] claims.
#[verifier::external_body]
pub(crate) fn parse_uuid(text: &str) -> (parsed: Result<u128, uuid::Error>)
    ensures
        match parsed {
            Ok(value) => parsed_uuid(text@) == Some(value),
            Err(_) => parsed_uuid(text@) is None,
        },
{
    match uuid::Uuid::parse_str(text) {
        Ok(id) => Ok(id.as_u128()),
        Err(error) => Err(error),
    }
}

} // verus!
