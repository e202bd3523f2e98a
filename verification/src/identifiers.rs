//! Session identifiers, as the `uuid` crate makes and reads them.

use crate::rng::{GetRandomRng, RngError};
use vstd::prelude::*;

verus! {

/// A failure to read a UUID, of the `uuid` crate.
#[verifier::external_type_specification]
#[verifier::external_body]
pub struct ExUuidError(uuid::Error);

/// The canonical text of the UUID that a text stands for, if it stands for
/// one: lower-case and hyphenated.
pub uninterp spec fn uuid_canonical_text(text: Seq<char>) -> Option<Seq<char>>;

/// The text of the random UUID that is made of sixteen bytes: the bytes
/// with the bits of version and variant set, hyphenated and in lower case.
pub uninterp spec fn random_uuid_text(bytes: Seq<u8>) -> Seq<char>;

/// Calls `uuid::Builder::from_random_bytes` and renders the identifier as
/// text. The contract names the text as a function of the bytes, and claims
/// that it is the hyphenated lower-case form, which `uuid::Uuid::parse_str`
/// reads back as the same identifier.
#[verifier::external_body]
fn uuid_text_of(bytes: [u8; 16]) -> (r: String)
    ensures
        r@ == random_uuid_text(bytes@),
        uuid_canonical_text(r@) == Some(r@),
{
    uuid::Builder::from_random_bytes(bytes).into_uuid().to_string()
}

/// Calls `uuid::Uuid::parse_str` and renders the identifier as text. The
/// contract names the outcome, and claims that the canonical text reads
/// back as itself.
#[verifier::external_body]
pub(crate) fn parse_uuid_text(text: &str) -> (r: Result<String, uuid::Error>)
    ensures
        match r {
            Ok(canonical) => uuid_canonical_text(text@) == Some(canonical@)
                && uuid_canonical_text(canonical@) == Some(canonical@),
            Err(_) => uuid_canonical_text(text@) is None,
        },
{
    uuid::Uuid::parse_str(text).map(|id| id.to_string())
}

/// Renders a `uuid::Error` with its `Display` form.
#[verifier::external_body]
pub(crate) fn uuid_error_text(e: &uuid::Error) -> (r: String) {
    format!("{}", e)
}

/// The session identifier that is made of sixteen bytes: a random UUID in
/// its canonical text, which `parse_uuid` accepts and hands back as it is.
pub fn session_uuid_from(bytes: [u8; 16]) -> (r: String)
    ensures
        r@ == random_uuid_text(bytes@),
        uuid_canonical_text(r@) == Some(r@),
{
    uuid_text_of(bytes)
}

/// Whether a text is a session identifier made of some sixteen bytes.
pub open spec fn is_session_uuid(text: Seq<char>) -> bool {
    &&& uuid_canonical_text(text) == Some(text)
    &&& exists|bytes: Seq<u8>| bytes.len() == 16 && text == #[trigger] random_uuid_text(bytes)
}

/// A fresh random session identifier: sixteen bytes are drawn from the
/// operating system's random source, and the identifier is the one that
/// `session_uuid_from` makes of them. Without random bytes there is no
/// identifier.
pub fn generate_session_uuid() -> (r: Result<String, RngError>)
    ensures
        r matches Ok(text) ==> is_session_uuid(text@),
{
    let mut bytes = [0u8; 16];
    let mut source = GetRandomRng;
    match source.fill_bytes(&mut bytes) {
        Ok(()) => Ok(session_uuid_from(bytes)),
        Err(e) => Err(e),
    }
}

/// The canonical text of a session identifier, or why the text is none.
pub fn parse_uuid(uuid_str: &str) -> (r: Result<String, String>)
    ensures
        match r {
            Ok(canonical) => uuid_canonical_text(uuid_str@) == Some(canonical@)
                && uuid_canonical_text(canonical@) == Some(canonical@),
            Err(_) => uuid_canonical_text(uuid_str@) is None,
        },
{
    match parse_uuid_text(uuid_str) {
        Ok(canonical) => Ok(canonical),
        Err(e) => Err(uuid_error_text(&e)),
    }
}

} // verus!
