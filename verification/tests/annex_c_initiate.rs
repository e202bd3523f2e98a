use base64::prelude::{Engine, BASE64_STANDARD, BASE64_URL_SAFE_NO_PAD};
use ciborium::Value;
use dc_api_core::annex_c::{initiate_inner, initiate_with, Handover, SessionTranscriptDCAPI};
use dc_api_core::config::{Client, Oid4VpConfig};
use dc_api_core::error::InitiateStep;
use dc_api_core::types::DCAPINamespaceRequest;
use isomdl::definitions::device_request::DeviceRequest;
use isomdl::definitions::helpers::Tag24;
use isomdl::presentation::reader::ReaderAuthenticationAll;
use p256::pkcs8::{EncodePrivateKey, LineEnding};

const LEAF: &str = "MIIBjzCCATSgAwIBAgICA+gwCgYIKoZIzj0EAwIwGzEZMBcGA1UEAwwQdmVyaWZpZXIuZXhhbXBsZTAeFw0yNTAxMDEwMDAwMDBaFw00NTAxMDEwMDAwMDBaMBsxGTAXBgNVBAMMEHZlcmlmaWVyLmV4YW1wbGUwWTATBgcqhkjOPQIBBggqhkjOPQMBBwNCAAQCF+YX8LZEOSgnj5aZnmmiOk8sFSvfbWzfZuW4AoLU7RlKfevLl3EtLdo8qFqodlpW9F/HWFmWUvKJfGUwbleUo2gwZjBkBgNVHREEXTBbgRRvcHNAdmVyaWZpZXIuZXhhbXBsZYYbaHR0cHM6Ly92ZXJpZmllci5leGFtcGxlL2lkghB2ZXJpZmllci5leGFtcGxlghRhbHQudmVyaWZpZXIuZXhhbXBsZTAKBggqhkjOPQQDAgNJADBGAiEA8SrH8R1PjvKh+zzFv3VGdLX1TNSubJ31zjyyXFCt7/MCIQDRckt2glkI8jSlil39ty0CjpHFNi+kSa+vuILP0qyW3w==";
const OTHER: &str = "MIIBMTCB2aADAgECAgID6DAKBggqhkjOPQQDAjAVMRMwEQYDVQQDDApjYS5leGFtcGxlMB4XDTI1MDEwMTAwMDAwMFoXDTQ1MDEwMTAwMDAwMFowFTETMBEGA1UEAwwKY2EuZXhhbXBsZTBZMBMGByqGSM49AgEGCCqGSM49AwEHA0IABAIX5hfwtkQ5KCePlpmeaaI6TywVK99tbN9m5bgCgtTtGUp968uXcS0t2jyoWqh2Wlb0X8dYWZZS8ol8ZTBuV5SjGTAXMBUGA1UdEQQOMAyCCmNhLmV4YW1wbGUwCgYIKoZIzj0EAwIDRwAwRAIgYcBscsenNeMGGU8cBsxf7HVhcwQXzCZ/nspsghj89zwCIFew0LSZmq9YatkFUyRUqIlleNDyFkttmvqrzvyew+fu";

const IKM: [u8; 32] = [7u8; 32];
const NONCE: [u8; 16] = [9u8; 16];
const ORIGIN: &str = "https://verifier.example";

fn signing_key() -> p256::SecretKey {
    p256::SecretKey::from_slice(&[0x11u8; 32]).unwrap()
}

fn config_with(x5c: Vec<Vec<u8>>) -> Oid4VpConfig {
    Oid4VpConfig {
        base_url: "https://verifier.example".to_string(),
        client: Client {
            x5c,
            key: signing_key().to_pkcs8_pem(LineEnding::LF).unwrap().to_string(),
        },
        submission_endpoint: "/submit".to_string(),
        reference_endpoint: "/reference".to_string(),
    }
}

fn config() -> Oid4VpConfig {
    config_with(vec![BASE64_STANDARD.decode(LEAF).unwrap(), BASE64_STANDARD.decode(OTHER).unwrap()])
}

fn request() -> DCAPINamespaceRequest {
    DCAPINamespaceRequest::new(
        vec![(
            "org.iso.18013.5.1".to_string(),
            vec!["given_name".to_string(), "family_name".to_string()],
        )],
        ORIGIN.to_string(),
    )
    .unwrap()
}

fn decode_request(text: &str) -> DeviceRequest {
    let bytes = BASE64_URL_SAFE_NO_PAD.decode(text).unwrap();
    isomdl::cbor::from_slice(&bytes).unwrap()
}

#[test]
fn device_request_names_document_type_and_retains_every_claim() {
    let (res, _) = initiate_with(&config(), &request(), &IKM, &NONCE).unwrap();
    let device_request = decode_request(&res.device_request);
    assert_eq!(device_request.version, "1.1");
    let doc_requests = device_request.doc_requests.into_inner();
    assert_eq!(doc_requests.len(), 1);
    assert!(doc_requests[0].reader_auth.is_none());
    let items = doc_requests[0].items_request.clone().into_inner();
    assert_eq!(items.doc_type, "org.iso.18013.5.1.mDL");
    assert!(items.request_info.is_none());
    let namespaces = items.namespaces.into_inner();
    assert_eq!(namespaces.len(), 1);
    let claims = namespaces.get("org.iso.18013.5.1").unwrap().clone().into_inner();
    assert_eq!(claims.len(), 2);
    assert_eq!(claims.get("given_name"), Some(&true));
    assert_eq!(claims.get("family_name"), Some(&true));
    let info = device_request.device_request_info.unwrap().into_inner();
    let use_cases = info.use_cases.into_inner();
    assert_eq!(use_cases.len(), 1);
    assert!(use_cases[0].mandatory);
    assert!(use_cases[0].purpose_hints.is_none());
    let sets: Vec<Vec<u64>> = use_cases[0]
        .document_sets
        .clone()
        .into_inner()
        .into_iter()
        .map(|s| s.into_inner())
        .collect();
    assert_eq!(sets, vec![vec![0u64]]);
}

#[test]
fn reader_authentication_is_signed_over_transcript_and_request() {
    let (res, state) = initiate_with(&config(), &request(), &IKM, &NONCE).unwrap();
    let device_request = decode_request(&res.device_request);
    let reader_auth = device_request.reader_auth_all.clone().unwrap().into_inner();
    assert_eq!(reader_auth.len(), 1);
    assert!(!reader_auth[0].tagged);
    assert!(reader_auth[0].inner.payload.is_none());
    assert_eq!(
        reader_auth[0].inner.protected.header.alg,
        Some(coset::Algorithm::Assigned(coset::iana::Algorithm::ES256))
    );
    let chain = &reader_auth[0].inner.unprotected.rest;
    assert_eq!(chain.len(), 1);
    assert_eq!(chain[0].0, coset::Label::Int(33));
    assert_eq!(
        chain[0].1,
        Value::Array(vec![
            Value::Bytes(BASE64_STANDARD.decode(LEAF).unwrap()),
            Value::Bytes(BASE64_STANDARD.decode(OTHER).unwrap()),
        ])
    );

    let transcript: Value =
        ciborium::from_reader(state.session_transcript_bytes().as_slice()).unwrap();
    let all = ReaderAuthenticationAll(
        "ReaderAuthenticationAll".to_string(),
        transcript,
        vec![device_request.doc_requests.into_inner()[0].items_request.clone()],
        device_request.device_request_info.clone(),
    );
    let payload = isomdl::cbor::to_vec(&Tag24::new(all).unwrap()).unwrap();
    let verifier = p256::ecdsa::VerifyingKey::from(signing_key().public_key());
    let result = reader_auth[0]
        .verify::<p256::ecdsa::VerifyingKey, p256::ecdsa::Signature>(&verifier, Some(&payload), None);
    assert!(result.is_success());

    let mut other = payload.clone();
    let last = other.len() - 1;
    other[last] ^= 1;
    let result = reader_auth[0]
        .verify::<p256::ecdsa::VerifyingKey, p256::ecdsa::Signature>(&verifier, Some(&other), None);
    assert!(!result.is_success());
}

#[test]
fn single_certificate_goes_into_the_header_as_one_byte_string() {
    let leaf = BASE64_STANDARD.decode(LEAF).unwrap();
    let (res, _) = initiate_with(&config_with(vec![leaf.clone()]), &request(), &IKM, &NONCE).unwrap();
    let device_request = decode_request(&res.device_request);
    let reader_auth = device_request.reader_auth_all.unwrap().into_inner();
    assert_eq!(reader_auth[0].inner.unprotected.rest[0].1, Value::Bytes(leaf));
}

#[test]
fn initiation_is_determined_by_key_material_and_nonce() {
    let (a, sa) = initiate_with(&config(), &request(), &IKM, &NONCE).unwrap();
    let (b, sb) = initiate_with(&config(), &request(), &IKM, &NONCE).unwrap();
    assert_eq!(a.device_request, b.device_request);
    assert_eq!(a.encryption_info, b.encryption_info);
    assert_eq!(sa.private_key(), sb.private_key());
    assert_eq!(sa.session_transcript_bytes(), sb.session_transcript_bytes());
}

#[test]
fn state_keeps_the_transcript_of_the_returned_encryption_info() {
    let (res, state) = initiate_with(&config(), &request(), &IKM, &NONCE).unwrap();
    let handover = Handover::new(res.encryption_info.clone(), ORIGIN.to_string()).unwrap();
    let bytes = SessionTranscriptDCAPI::new(handover).to_bytes().unwrap();
    assert_eq!(&bytes, state.session_transcript_bytes());
    assert_eq!(state.private_key().len(), 32);
}

#[test]
fn fresh_initiations_never_share_key_or_nonce() {
    let (a, sa) = initiate_inner(&config(), &request()).unwrap();
    let (b, sb) = initiate_inner(&config(), &request()).unwrap();
    assert_ne!(sa.private_key(), sb.private_key());
    assert_ne!(a.encryption_info, b.encryption_info);
    assert_ne!(sa.session_transcript_bytes(), sb.session_transcript_bytes());
    assert_eq!(sa.private_key().len(), 32);
    let info = BASE64_URL_SAFE_NO_PAD.decode(&a.encryption_info).unwrap();
    let value: Value = ciborium::from_reader(info.as_slice()).unwrap();
    let entries = value.into_array().unwrap()[1].clone().into_map().unwrap();
    assert_eq!(entries[0].1.as_bytes().unwrap().len(), 16);
}

#[test]
fn unreadable_key_is_reported_before_the_chain() {
    let mut bad = config_with(vec![]);
    bad.client.key = "not a key".to_string();
    let err = initiate_with(&bad, &request(), &IKM, &NONCE).unwrap_err();
    assert_eq!(err.step, InitiateStep::SigningKey);
}

#[test]
fn missing_or_unreadable_chain_is_reported() {
    let err = initiate_with(&config_with(vec![]), &request(), &IKM, &NONCE).unwrap_err();
    assert_eq!(err.step, InitiateStep::CertificateChain);
    let err =
        initiate_with(&config_with(vec![vec![1, 2, 3]]), &request(), &IKM, &NONCE).unwrap_err();
    assert_eq!(err.step, InitiateStep::CertificateChain);
}

#[test]
fn namespaces_and_claims_all_reach_the_items_request() {
    let request = DCAPINamespaceRequest::new(
        vec![
            ("org.iso.18013.5.1".to_string(), vec!["age_over_21".to_string()]),
            (
                "org.iso.18013.5.1.aamva".to_string(),
                vec!["DHS_compliance".to_string(), "organ_donor".to_string()],
            ),
        ],
        ORIGIN.to_string(),
    )
    .unwrap();
    let (res, _) = initiate_with(&config(), &request, &IKM, &NONCE).unwrap();
    let device_request = decode_request(&res.device_request);
    let items = device_request.doc_requests.into_inner()[0].items_request.clone().into_inner();
    let namespaces = items.namespaces.into_inner();
    assert_eq!(namespaces.len(), 2);
    let aamva = namespaces.get("org.iso.18013.5.1.aamva").unwrap().clone().into_inner();
    assert_eq!(aamva.len(), 2);
    assert!(aamva.values().all(|retain| *retain));
    let core = namespaces.get("org.iso.18013.5.1").unwrap().clone().into_inner();
    assert_eq!(core.get("age_over_21"), Some(&true));
}
