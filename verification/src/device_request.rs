//! The signed device request of the direct exchange, assembled through the
//! `isomdl`, `coset` and `p256` crates.

use crate::cbor::{
    cbor_array, cbor_bytes, cbor_model, cbor_models, CborModel,
};
use isomdl::definitions::device_request::{
    DeviceRequest, DeviceRequestInfo, DocRequest, ItemsRequest, UseCase,
};
use coset::iana::Algorithm::ES256;
use coset::{CoseSign1Builder, HeaderBuilder};
use isomdl::cose::sign1::PreparedCoseSign1;
use isomdl::definitions::helpers::{NonEmptyMap, NonEmptyVec, Tag24};
use isomdl::definitions::x509::x5chain::X5CHAIN_COSE_HEADER_LABEL;
use p256::ecdsa::signature::Signer;
use p256::pkcs8::DecodePrivateKey;
use vstd::prelude::*;

verus! {

/// The encoded request for the items of one document type: the namespaces,
/// each with its claims and whether the verifier intends to retain them.
pub uninterp spec fn items_request_encoding(
    doc_type: Seq<char>,
    namespaces: Seq<(Seq<char>, Seq<(Seq<char>, bool)>)>,
) -> Option<Seq<u8>>;

/// The encoded request information: one use case, mandatory or not, that
/// asks for the one document with the given index.
pub uninterp spec fn device_request_info_encoding(mandatory: bool, document: u64) -> Option<
    Seq<u8>,
>;

/// The encoded reader authentication: the label, the session transcript, the
/// one items request and the request information, wrapped as an embedded
/// data item.
pub uninterp spec fn reader_authentication_encoding(
    label: Seq<char>,
    transcript: CborModel,
    items_request: Seq<u8>,
    info: Seq<u8>,
) -> Option<Seq<u8>>;

/// Whether a PEM text holds a PKCS#8 P-256 private key.
pub uninterp spec fn signing_key_accepted(key_pem: Seq<char>) -> bool;

/// The certificate chain header for a list of DER certificates, if they
/// parse and there is at least one.
pub uninterp spec fn certificate_chain_model(certificates: CborModel) -> Option<CborModel>;

/// The bytes that are signed for a COSE_Sign1 with a detached payload, the
/// algorithm ES256 in its protected header and the certificate chain in its
/// unprotected header.
pub uninterp spec fn signature_payload_encoding(chain: CborModel, payload: Seq<u8>) -> Option<
    Seq<u8>,
>;

/// The ES256 signature of a message under a key. It is a function of the
/// two: the signer derives its nonce from them.
pub uninterp spec fn es256_signature(key_pem: Seq<char>, message: Seq<u8>) -> Option<Seq<u8>>;

/// The data items of the finished COSE_Sign1: ES256 in the protected header,
/// the certificate chain in the unprotected header, no payload of its own,
/// and the signature, if the structure can be prepared for the payload.
pub uninterp spec fn cose_sign1_model(
    chain: CborModel,
    payload: Seq<u8>,
    signature: Seq<u8>,
) -> Option<CborModel>;

/// The encoded device request.
pub uninterp spec fn device_request_encoding(
    version: Seq<char>,
    items_request: Seq<u8>,
    reader_auth: CborModel,
    info: Seq<u8>,
) -> Option<Seq<u8>>;

/// The texts of a list of namespaces whose claims carry the intent to
/// retain.
pub open spec fn retained_view(namespaces: Seq<(String, Vec<(String, bool)>)>) -> Seq<
    (Seq<char>, Seq<(Seq<char>, bool)>),
> {
    Seq::new(
        namespaces.len(),
        |i: int|
            (
                namespaces[i].0@,
                Seq::new(
                    namespaces[i].1@.len(),
                    |j: int| (namespaces[i].1@[j].0@, namespaces[i].1@[j].1),
                ),
            ),
    )
}

/// Builds an `isomdl::definitions::device_request::ItemsRequest` without
/// request info and encodes it with `isomdl::cbor::to_vec`. The contract
/// names the bytes as a function of the document type and the namespaces.
#[verifier::external_body]
pub(crate) fn items_request_bytes(
    doc_type: &str,
    namespaces: &Vec<(String, Vec<(String, bool)>)>,
) -> (r: Result<Vec<u8>, String>)
    requires
        namespaces@.len() > 0,
        forall|i: int| 0 <= i < namespaces@.len() ==> (#[trigger] namespaces@[i]).1@.len() > 0,
    ensures
        match r {
            Ok(bytes) => items_request_encoding(doc_type@, retained_view(namespaces@)) == Some(
                bytes@,
            ),
            Err(_) => items_request_encoding(doc_type@, retained_view(namespaces@)) is None,
        },
{
    let namespaces = namespaces.iter().map(
        |(n, c)| (n.clone(), NonEmptyMap::maybe_new(c.iter().cloned().collect()).unwrap()),
    ).collect();
    let request = ItemsRequest {
        doc_type: doc_type.to_string(),
        namespaces: NonEmptyMap::maybe_new(namespaces).unwrap(),
        request_info: None,
    };
    isomdl::cbor::to_vec(&request).map_err(|e| format!("{e:?}"))
}

/// Builds an `isomdl::definitions::device_request::DeviceRequestInfo` with
/// one use case and encodes it with `isomdl::cbor::to_vec`. The contract
/// names the bytes.
#[verifier::external_body]
pub(crate) fn device_request_info_bytes(mandatory: bool, document: u64) -> (r: Result<
    Vec<u8>,
    String,
>)
    ensures
        match r {
            Ok(bytes) => device_request_info_encoding(mandatory, document) == Some(bytes@),
            Err(_) => device_request_info_encoding(mandatory, document) is None,
        },
{
    let info = DeviceRequestInfo {
        use_cases: NonEmptyVec::new(
            UseCase {
                mandatory,
                document_sets: NonEmptyVec::new(NonEmptyVec::new(document)),
                purpose_hints: None,
            },
        ),
    };
    isomdl::cbor::to_vec(&info).map_err(|e| format!("{e:?}"))
}

/// Builds an `isomdl::presentation::reader::ReaderAuthenticationAll`,
/// wraps it with `Tag24::new` and encodes it with `isomdl::cbor::to_vec`.
/// The contract names the bytes.
#[verifier::external_body]
pub(crate) fn reader_authentication_bytes(
    label: &str,
    transcript: &ciborium::Value,
    items_request: &[u8],
    info: &[u8],
) -> (r: Result<Vec<u8>, String>)
    ensures
        match r {
            Ok(bytes) => reader_authentication_encoding(
                label@,
                cbor_model(*transcript),
                items_request@,
                info@,
            ) == Some(bytes@),
            Err(_) => reader_authentication_encoding(
                label@,
                cbor_model(*transcript),
                items_request@,
                info@,
            ) is None,
        },
{
    let items = Tag24::<ItemsRequest>::from_bytes(items_request.to_vec()).map_err(
        |e| format!("{e:?}"),
    )?;
    let info = Tag24::<DeviceRequestInfo>::from_bytes(info.to_vec()).map_err(
        |e| format!("{e:?}"),
    )?;
    let all = isomdl::presentation::reader::ReaderAuthenticationAll(
        label.to_string(),
        transcript.clone(),
        vec![items],
        Some(info),
    );
    let tagged = Tag24::new(all).map_err(|e| format!("{e:?}"))?;
    isomdl::cbor::to_vec(&tagged).map_err(|e| format!("{e:?}"))
}

/// Calls `p256::SecretKey::from_pkcs8_pem`. The contract names whether the
/// key is accepted.
#[verifier::external_body]
pub(crate) fn check_signing_key(key_pem: &str) -> (r: Result<(), String>)
    ensures
        r is Ok <==> signing_key_accepted(key_pem@),
{
    p256::SecretKey::from_pkcs8_pem(key_pem).map(|_| ()).map_err(|e| format!("{e:?}"))
}

/// Calls `isomdl::definitions::x509::X5Chain::from_cbor` on a list of DER
/// certificates and `into_cbor` on the chain, which gives the form that goes
/// into a header. The contract names that form.
#[verifier::external_body]
pub(crate) fn certificate_chain_value(certificates: ciborium::Value) -> (r: Result<
    ciborium::Value,
    String,
>)
    ensures
        match r {
            Ok(chain) => certificate_chain_model(cbor_model(certificates)) == Some(
                cbor_model(chain),
            ),
            Err(_) => certificate_chain_model(cbor_model(certificates)) is None,
        },
{
    let chain = isomdl::definitions::x509::X5Chain::from_cbor(certificates).map_err(
        |e| format!("{e:?}"),
    )?;
    Ok(chain.into_cbor())
}

/// Calls `isomdl::cose::sign1::PreparedCoseSign1::new` on a COSE_Sign1 built
/// with `coset::CoseSign1Builder`: ES256 in the protected header, the
/// certificate chain under the x5chain label in the unprotected header, a
/// detached payload, no additional data and no tag; and copies its
/// `signature_payload`. The contract names the bytes to sign as a function
/// of the chain and the payload.
#[verifier::external_body]
pub(crate) fn es256_signature_payload(chain: &ciborium::Value, payload: &[u8]) -> (r: Result<
    Vec<u8>,
    String,
>)
    ensures
        match r {
            Ok(bytes) => signature_payload_encoding(cbor_model(*chain), payload@) == Some(bytes@),
            Err(_) => signature_payload_encoding(cbor_model(*chain), payload@) is None,
        },
{
    let protected = HeaderBuilder::new().algorithm(ES256).build();
    let unprotected = HeaderBuilder::new().value(X5CHAIN_COSE_HEADER_LABEL, chain.clone()).build();
    let builder = CoseSign1Builder::new().protected(protected).unprotected(unprotected);
    let prepared = PreparedCoseSign1::new(builder, Some(payload), None, false).map_err(
        |e| format!("{e:?}"),
    )?;
    Ok(prepared.signature_payload().to_vec())
}

/// Calls `isomdl::cose::sign1::PreparedCoseSign1::new` on the same
/// COSE_Sign1 as `es256_signature_payload` does, then `finalize` with the
/// signature, and turns the result into a value with
/// `isomdl::cbor::into_value`. The contract names its data items as a
/// function of the chain, the payload and the signature.
#[verifier::external_body]
pub(crate) fn es256_sign1_value(
    chain: &ciborium::Value,
    payload: &[u8],
    signature: &[u8],
) -> (r: Result<ciborium::Value, String>)
    ensures
        match r {
            Ok(value) => cose_sign1_model(cbor_model(*chain), payload@, signature@) == Some(
                cbor_model(value),
            ),
            Err(_) => cose_sign1_model(cbor_model(*chain), payload@, signature@) is None,
        },
{
    let protected = HeaderBuilder::new().algorithm(ES256).build();
    let unprotected = HeaderBuilder::new().value(X5CHAIN_COSE_HEADER_LABEL, chain.clone()).build();
    let builder = CoseSign1Builder::new().protected(protected).unprotected(unprotected);
    let prepared = PreparedCoseSign1::new(builder, Some(payload), None, false).map_err(
        |e| format!("{e:?}"),
    )?;
    isomdl::cbor::into_value(prepared.finalize(signature.to_vec())).map_err(|e| format!("{e:?}"))
}

/// Calls `sign` on a `p256::ecdsa::SigningKey`. The key types of the `p256`
/// crate are instances of types that are generic over the curve, so the key
/// comes as PEM text and is loaded with `p256::SecretKey::from_pkcs8_pem`
/// here. The contract names the signature.
#[verifier::external_body]
pub(crate) fn sign_es256(key_pem: &str, message: &[u8]) -> (r: Result<Vec<u8>, String>)
    ensures
        match r {
            Ok(signature) => es256_signature(key_pem@, message@) == Some(signature@),
            Err(_) => es256_signature(key_pem@, message@) is None,
        },
{
    let key = p256::SecretKey::from_pkcs8_pem(key_pem).map_err(|e| format!("{e:?}"))?;
    let signer: p256::ecdsa::SigningKey = key.into();
    let signature: p256::ecdsa::Signature = signer.sign(message);
    Ok(signature.to_bytes().to_vec())
}

/// Builds an `isomdl::definitions::device_request::DeviceRequest` with one
/// document request and one reader authentication and encodes it with
/// `isomdl::cbor::to_vec`. The contract names the bytes.
#[verifier::external_body]
pub(crate) fn device_request_bytes(
    version: &str,
    items_request: &[u8],
    reader_auth: ciborium::Value,
    info: &[u8],
) -> (r: Result<Vec<u8>, String>)
    ensures
        match r {
            Ok(bytes) => device_request_encoding(
                version@,
                items_request@,
                cbor_model(reader_auth),
                info@,
            ) == Some(bytes@),
            Err(_) => device_request_encoding(
                version@,
                items_request@,
                cbor_model(reader_auth),
                info@,
            ) is None,
        },
{
    let text = |e: isomdl::definitions::helpers::tag24::Error| format!("{e:?}");
    let reader_auth = isomdl::cbor::from_value(reader_auth).map_err(|e| format!("{e:?}"))?;
    let items_request = Tag24::from_bytes(items_request.to_vec()).map_err(text)?;
    let request = DeviceRequest {
        version: version.to_string(),
        doc_requests: NonEmptyVec::new(DocRequest { items_request, reader_auth: None }),
        reader_auth_all: Some(NonEmptyVec::new(reader_auth)),
        device_request_info: Some(Tag24::from_bytes(info.to_vec()).map_err(text)?),
    };
    isomdl::cbor::to_vec(&request).map_err(|e| format!("{e:?}"))
}

/// The DER certificates of a chain as an array of byte strings.
pub open spec fn certificates_model(certificates: Seq<Seq<u8>>) -> CborModel {
    CborModel::Array(Seq::new(certificates.len(), |i: int| CborModel::Bytes(certificates[i])))
}

/// The contents of a list of byte strings.
pub open spec fn byte_strings(list: Seq<Vec<u8>>) -> Seq<Seq<u8>> {
    Seq::new(list.len(), |i: int| list[i]@)
}

/// The DER certificates of a chain as an array of byte strings.
pub(crate) fn certificates_value(certificates: &Vec<Vec<u8>>) -> (r: ciborium::Value)
    ensures
        cbor_model(r) == certificates_model(byte_strings(certificates@)),
{
    let mut items: Vec<ciborium::Value> = Vec::new();
    let mut i: usize = 0;
    while i < certificates.len()
        invariant
            i <= certificates.len(),
            items@.len() == i,
            forall|k: int|
                0 <= k < i ==> cbor_model(#[trigger] items@[k]) == CborModel::Bytes(
                    certificates@[k]@,
                ),
        decreases certificates.len() - i,
    {
        items.push(cbor_bytes(certificates[i].as_slice()));
        i += 1;
    }
    assert(cbor_models(items@) =~= Seq::new(
        byte_strings(certificates@).len(),
        |i: int| CborModel::Bytes(byte_strings(certificates@)[i]),
    ));
    cbor_array(items)
}

} // verus!
