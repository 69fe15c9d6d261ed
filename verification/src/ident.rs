//! The key of the one record.

use vstd::prelude::*;

verus! {

/// The key under which the one record is kept, as text.
pub const PROTO_ID: &'static str = "11111111-1111-1111-1111-111111111111";

/// What `uuid::Uuid::parse_str` makes of a text: the 128-bit value of the
/// identifier it reads, most significant byte first, or `None` where it
/// reports an error.
pub uninterp spec fn uuid_value(text: Seq<char>) -> Option<u128>;

/// Calls `uuid::Uuid::parse_str` and, on success, `Uuid::as_u128`. Trusted:
/// the result is a function of the text alone, which `uuid_value` names.
/// The parser reports malformed text as an error and never panics.
#[verifier::external_body]
fn parse_uuid(text: &str) -> (id: Option<u128>)
    ensures
        id == uuid_value(text@),
{
    match uuid::Uuid::parse_str(text) {
        Ok(id) => Some(id.as_u128()),
        Err(_) => None,
    }
}

/// The key of the one record as a number: `PROTO_ID` as the identifier
/// parser reads it. `None` only if `PROTO_ID` is no identifier.
pub fn record_id() -> (id: Option<u128>)
    ensures
        id == uuid_value(PROTO_ID@),
{
    parse_uuid(PROTO_ID)
}

} // verus!
