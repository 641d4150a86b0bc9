//! Unique identifiers for subscriber rows and activation tokens.
//!
//! Identifiers are 128-bit values drawn at random; the store, not the
//! generator, is what guarantees uniqueness among persisted rows. The
//! textual form used in confirmation links and API responses is the
//! canonical hyphenated rendering.

use vstd::prelude::*;

verus! {

/// The canonical text of a 128-bit identifier: a function of the value
/// alone, left uninterpreted here.
pub uninterp spec fn uuid_text(u: u128) -> Seq<char>;

/// The identifier a piece of text denotes, if it denotes one at all: a
/// function of the characters alone, left uninterpreted here.
pub uninterp spec fn uuid_value(s: Seq<char>) -> Option<u128>;

/// Relies on `uuid::Uuid::new_v4`: the value is random, so nothing is
/// promised of it; every caller must cope with every value.
#[verifier::external_body]
pub(crate) fn fresh_id() -> u128 {
    uuid::Uuid::new_v4().as_u128()
}

/// Relies on `uuid::Uuid`'s `Display` (via `to_string`): the hyphenated
/// lowercase form, 36 characters, determined by the 128-bit value alone;
/// and on `uuid::Uuid::parse_str` accepting every format the crate
/// itself generates, giving back the same 128-bit value.
#[verifier::external_body]
pub(crate) fn uuid_string(u: u128) -> (r: String)
    ensures
        r@ == uuid_text(u),
        r@.len() == 36,
        uuid_value(r@) == Some(u),
{
    uuid::Uuid::from_u128(u).to_string()
}

/// Relies on `uuid::Uuid::parse_str`: whether text parses, and to which
/// value, depends on the characters alone.
#[verifier::external_body]
pub(crate) fn parse_uuid(s: &str) -> (r: Option<u128>)
    ensures
        r == uuid_value(s@),
{
    match uuid::Uuid::parse_str(s) {
        Ok(u) => Some(u.as_u128()),
        Err(_) => None,
    }
}

/// The text of an activation token (or of a row id), exactly as it is
/// embedded in confirmation links and API responses.
pub fn token_string(token: u128) -> (r: String)
    ensures
        r@ == uuid_text(token),
        r@.len() == 36,
        uuid_value(r@) == Some(token),
{
    uuid_string(token)
}

} // verus!
