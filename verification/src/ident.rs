//! Identifiers of users and sessions: 128-bit values, written as text in
//! the hyphenated form of a UUID.

use vstd::prelude::*;

verus! {

/// The identifier that a text stands for, or `None` where the text is no
/// UUID. This is what `uuid::Uuid::parse_str` accepts: the simple, the
/// hyphenated, the braced and the URN form.
pub uninterp spec fn parse_uuid_text(text: Seq<char>) -> Option<u128>;

/// The text of an identifier: 32 lower-case hexadecimal digits in five
/// hyphenated groups, as `uuid::Uuid` displays it.
pub uninterp spec fn uuid_text(id: u128) -> Seq<char>;

/// Calls `uuid::Uuid::parse_str` and hands the 128 bits of the parsed
/// value back (`Uuid::as_u128`). The outcome depends on the text alone;
/// a text that the parser refuses gives `None`.
#[verifier::external_body]
pub(crate) fn parse_uuid(text: &str) -> (id: Option<u128>)
    ensures
        id == parse_uuid_text(text@),
{
    match uuid::Uuid::parse_str(text) {
        Ok(u) => Some(u.as_u128()),
        Err(_) => None,
    }
}

/// Displays `uuid::Uuid::from_u128(id)` (`to_string`). The parser reads
/// every form that the crate writes, so the text parses back to `id`.
#[verifier::external_body]
pub(crate) fn format_uuid(id: u128) -> (text: String)
    ensures
        text@ == uuid_text(id),
        parse_uuid_text(text@) == Some(id),
{
    uuid::Uuid::from_u128(id).to_string()
}

/// Calls `uuid::Uuid::new_v4`: a random identifier, of which nothing is
/// known beforehand.
#[verifier::external_body]
pub(crate) fn random_uuid() -> (id: u128)
{
    uuid::Uuid::new_v4().as_u128()
}

} // verus!
