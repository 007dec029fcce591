//! Session identifiers: 128-bit numbers that travel as text in a cookie.

use vstd::prelude::*;

verus! {

/// The identifier that the uuid library's `Uuid::parse_str` reads from
/// `text`, as the 128-bit number that `Uuid::as_u128` gives; none where the
/// library rejects the text.
pub uninterp spec fn parsed_uuid(text: Seq<char>) -> Option<u128>;

/// Parses with uuid's `Uuid::parse_str` and converts what it accepts with
/// `Uuid::as_u128`.
///
/// Claimed: the result is a function of the text alone.
#[verifier::external_body]
pub(crate) fn parse_uuid(text: &str) -> (id: Option<u128>)
    ensures
        id == parsed_uuid(text@),
{
    uuid::Uuid::parse_str(text).ok().map(|id| id.as_u128())
}

/// Formats `id` as uuid's `Display` does, from `Uuid::from_u128`.
///
/// Claimed: `Uuid::parse_str` reads the same identifier back from the text
/// (the library documents that it parses every format that it writes).
#[verifier::external_body]
pub(crate) fn uuid_text(id: u128) -> (text: String)
    ensures
        parsed_uuid(text@) == Some(id),
{
    uuid::Uuid::from_u128(id).to_string()
}

/// Draws a random identifier with uuid's `Uuid::new_v4`, as the number that
/// `Uuid::as_u128` gives. Nothing is claimed of the value. The library panics
/// where the system has no randomness to give.
#[verifier::external_body]
pub(crate) fn random_uuid() -> (id: u128) {
    uuid::Uuid::new_v4().as_u128()
}

} // verus!
