//! Digests and base64 text, as computed by the `sha2` and `base64` crates.

use base64::Engine;
use sha2::Digest;
use vstd::prelude::*;

verus! {

/// The SHA-256 digest of a byte string.
pub uninterp spec fn sha256_digest(data: Seq<u8>) -> Seq<u8>;

/// The SHA-512 digest of a byte string.
pub uninterp spec fn sha512_digest(data: Seq<u8>) -> Seq<u8>;

/// The unpadded URL-safe base64 text of a byte string.
pub uninterp spec fn base64url_text(data: Seq<u8>) -> Seq<char>;

/// The bytes that unpadded URL-safe base64 text stands for, if it is
/// well-formed.
pub uninterp spec fn base64url_bytes(text: Seq<char>) -> Option<Seq<u8>>;

/// The padded standard-alphabet base64 text of a byte string.
pub uninterp spec fn base64_text(data: Seq<u8>) -> Seq<char>;

/// The bytes that padded standard-alphabet base64 text stands for, if it is
/// well-formed.
pub uninterp spec fn base64_bytes(text: Seq<char>) -> Option<Seq<u8>>;

/// A failure to decode base64 text, of the `base64` crate.
#[verifier::external_type_specification]
#[verifier::external_body]
pub struct ExDecodeError(base64::DecodeError);

/// Calls `sha2::Sha256::digest`. The contract names the digest and claims
/// its length of 32 bytes.
#[verifier::external_body]
pub(crate) fn sha256(data: &[u8]) -> (r: Vec<u8>)
    ensures
        r@ == sha256_digest(data@),
        r@.len() == 32,
{
    sha2::Sha256::digest(data).to_vec()
}

/// Calls `sha2::Sha512::digest`. The contract names the digest and claims
/// its length of 64 bytes.
#[verifier::external_body]
pub(crate) fn sha512(data: &[u8]) -> (r: Vec<u8>)
    ensures
        r@ == sha512_digest(data@),
        r@.len() == 64,
{
    sha2::Sha512::digest(data).to_vec()
}

/// Calls `encode` on `base64::prelude::BASE64_URL_SAFE_NO_PAD`. The contract
/// names the text, and claims that the same engine decodes it to the bytes
/// it was made from.
#[verifier::external_body]
pub(crate) fn base64url_encode(data: &[u8]) -> (r: String)
    ensures
        r@ == base64url_text(data@),
        base64url_bytes(r@) == Some(data@),
{
    base64::prelude::BASE64_URL_SAFE_NO_PAD.encode(data)
}

/// Calls `decode` on `base64::prelude::BASE64_URL_SAFE_NO_PAD`. The contract
/// names the outcome: the decoded bytes, or a failure exactly where the
/// text is not well-formed.
#[verifier::external_body]
pub(crate) fn base64url_decode(text: &str) -> (r: Result<Vec<u8>, base64::DecodeError>)
    ensures
        match r {
            Ok(bytes) => base64url_bytes(text@) == Some(bytes@),
            Err(_) => base64url_bytes(text@) is None,
        },
{
    base64::prelude::BASE64_URL_SAFE_NO_PAD.decode(text)
}

/// Calls `encode` on `base64::prelude::BASE64_STANDARD`. The contract names
/// the text, and claims that the same engine decodes it to the bytes it was
/// made from.
#[verifier::external_body]
pub(crate) fn base64_encode(data: &[u8]) -> (r: String)
    ensures
        r@ == base64_text(data@),
        base64_bytes(r@) == Some(data@),
{
    base64::prelude::BASE64_STANDARD.encode(data)
}

/// Calls `decode` on `base64::prelude::BASE64_STANDARD`. The contract names
/// the outcome: the decoded bytes, or a failure exactly where the text is
/// not well-formed.
#[verifier::external_body]
pub(crate) fn base64_decode(text: &str) -> (r: Result<Vec<u8>, base64::DecodeError>)
    ensures
        match r {
            Ok(bytes) => base64_bytes(text@) == Some(bytes@),
            Err(_) => base64_bytes(text@) is None,
        },
{
    base64::prelude::BASE64_STANDARD.decode(text)
}

/// Renders a `base64::DecodeError` with its `Debug` form.
#[verifier::external_body]
pub(crate) fn decode_error_text(e: &base64::DecodeError) -> (r: String) {
    format!("{:?}", e)
}

} // verus!
