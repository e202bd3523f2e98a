//! Key agreement and decryption with DHKEM(P-256, HKDF-SHA256), HKDF-SHA256
//! and AES-128-GCM, as the `hpke` crate provides them.

use hpke::Deserializable;
use hpke::Kem;
use hpke::Serializable;
use vstd::prelude::*;

verus! {

/// What can go wrong in the key agreement, as the `hpke` crate reports it.
#[verifier::external_type_specification]
pub struct ExHpkeError(hpke::HpkeError);

/// The key pair that the key-encapsulation mechanism derives from input
/// keying material: the serialized private key and the serialized public key.
pub uninterp spec fn derived_keypair(ikm: Seq<u8>) -> (Seq<u8>, Seq<u8>);

/// Why a byte string is no serialized private key, if it is none.
pub uninterp spec fn private_key_rejected(bytes: Seq<u8>) -> Option<hpke::HpkeError>;

/// Why a byte string is no serialized encapsulated key, if it is none.
pub uninterp spec fn encapped_key_rejected(bytes: Seq<u8>) -> Option<hpke::HpkeError>;

/// What opening a cipher text gives in base mode: the plaintext, or why
/// there is none.
pub uninterp spec fn opened(
    private_key: Seq<u8>,
    encapped_key: Seq<u8>,
    info: Seq<u8>,
    cipher_text: Seq<u8>,
    aad: Seq<u8>,
) -> Result<Seq<u8>, hpke::HpkeError>;

/// The length of a serialized private key.
pub const PRIVATE_KEY_LEN: usize = 32;

/// The length of a serialized public key: one byte that marks the
/// uncompressed form, then the two coordinates.
pub const PUBLIC_KEY_LEN: usize = 65;

/// Calls `hpke::kem::DhP256HkdfSha256::derive_keypair` and serializes both
/// keys with `to_bytes`. The contract names the pair as a function of the
/// keying material and claims the two lengths. The outside function gives up
/// if 256 candidate keys in a row are out of range, which its authors rate at
/// a chance of 2^-8192.
#[verifier::external_body]
pub(crate) fn derive_keypair(ikm: &[u8]) -> (r: (Vec<u8>, Vec<u8>))
    ensures
        (r.0@, r.1@) == derived_keypair(ikm@),
        r.0@.len() == PRIVATE_KEY_LEN,
        r.1@.len() == PUBLIC_KEY_LEN,
{
    let (private_key, public_key) = hpke::kem::DhP256HkdfSha256::derive_keypair(ikm);
    (private_key.to_bytes().to_vec(), public_key.to_bytes().to_vec())
}

/// Calls `from_bytes` of the mechanism's private key type. The contract
/// names the outcome.
#[verifier::external_body]
pub(crate) fn check_private_key(bytes: &[u8]) -> (r: Result<(), hpke::HpkeError>)
    ensures
        match r {
            Ok(()) => private_key_rejected(bytes@) is None,
            Err(e) => private_key_rejected(bytes@) == Some(e),
        },
{
    <hpke::kem::DhP256HkdfSha256 as Kem>::PrivateKey::from_bytes(bytes).map(|_| ())
}

/// Calls `from_bytes` of the mechanism's encapsulated key type. The contract
/// names the outcome.
#[verifier::external_body]
pub(crate) fn check_encapped_key(bytes: &[u8]) -> (r: Result<(), hpke::HpkeError>)
    ensures
        match r {
            Ok(()) => encapped_key_rejected(bytes@) is None,
            Err(e) => encapped_key_rejected(bytes@) == Some(e),
        },
{
    <hpke::kem::DhP256HkdfSha256 as Kem>::EncappedKey::from_bytes(bytes).map(|_| ())
}

/// Calls `hpke::single_shot_open` in base mode, which sets up the receiving
/// context from the private key, the encapsulated key and `info`, and opens
/// the cipher text with it. The key types of the `hpke` crate have no path
/// from outside it, so both keys come as bytes and are read with `from_bytes`
/// here. The contract names the outcome as a function of the five byte
/// strings.
#[verifier::external_body]
pub(crate) fn open(
    private_key: &[u8],
    encapped_key: &[u8],
    info: &[u8],
    cipher_text: &[u8],
    aad: &[u8],
) -> (r: Result<Vec<u8>, hpke::HpkeError>)
    ensures
        match r {
            Ok(plaintext) => opened(private_key@, encapped_key@, info@, cipher_text@, aad@)
                == Ok::<Seq<u8>, hpke::HpkeError>(plaintext@),
            Err(e) => opened(private_key@, encapped_key@, info@, cipher_text@, aad@)
                == Err::<Seq<u8>, hpke::HpkeError>(e),
        },
{
    let sk = <hpke::kem::DhP256HkdfSha256 as Kem>::PrivateKey::from_bytes(private_key)?;
    let enc = <hpke::kem::DhP256HkdfSha256 as Kem>::EncappedKey::from_bytes(encapped_key)?;
    hpke::single_shot_open::<
        hpke::aead::AesGcm128,
        hpke::kdf::HkdfSha256,
        hpke::kem::DhP256HkdfSha256,
    >(&hpke::OpModeR::Base, &sk, &enc, info, cipher_text, aad)
}

/// Renders an `hpke::HpkeError` with its `Debug` form.
#[verifier::external_body]
pub(crate) fn hpke_error_text(e: &hpke::HpkeError) -> (r: String) {
    format!("{:?}", e)
}

} // verus!
