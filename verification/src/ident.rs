//! Identifiers of cameras and users.

use vstd::prelude::*;

verus! {

/// A 128-bit universally unique identifier, held as the number that its
/// sixteen bytes spell in big-endian order.
#[derive(Clone, Copy, Debug, PartialEq, Eq, Structural, Hash)]
pub struct Uuid {
    pub value: u128,
}

/// What `uuid::Uuid::parse_str` makes of a text: the identifier's 128-bit
/// value where it accepts the text, `None` where it rejects it.
pub uninterp spec fn uuid_parse_str(input: Seq<char>) -> Option<u128>;

/// Calls `uuid::Uuid::parse_str` and, where it accepts the text, takes the
/// identifier's value with `uuid::Uuid::as_u128`. Trusted: the result is the
/// one that `uuid_parse_str` names, which depends on the text alone.
#[verifier::external_body]
fn parse_with_uuid(input: &str) -> (parsed: Option<u128>)
    ensures
        parsed == uuid_parse_str(input@),
{
    match uuid::Uuid::parse_str(input) {
        Ok(id) => Some(id.as_u128()),
        Err(_) => None,
    }
}

impl Uuid {
    /// Reads an identifier from its text form (simple, hyphenated or URN):
    /// `None` where the text is no identifier.
    pub fn parse_str(input: &str) -> (id: Option<Uuid>)
        ensures
            id == match uuid_parse_str(input@) {
                Some(value) => Some(Uuid { value }),
                None => None,
            },
    {
        match parse_with_uuid(input) {
            Some(value) => Some(Uuid { value }),
            None => None,
        }
    }
}

} // verus!
