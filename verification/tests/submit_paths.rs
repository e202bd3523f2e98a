use base64::prelude::{Engine, BASE64_URL_SAFE_NO_PAD};
use ciborium::Value;
use dc_api_core::annex_c;
use dc_api_core::annex_d;
use dc_api_core::dc_api::{submit_response, Submission, SubmitRejection};
use dc_api_core::error::SubmitStep;
use dc_api_core::mdoc::Parsed;
use dc_api_core::session::{Session, SessionError, SessionState};
use dc_api_core::types::DCAPIResponse;
use hpke::rand_core::{CryptoRng, RngCore};
use hpke::{Deserializable, Kem, OpModeS, Serializable};
use isomdl::cose::MaybeTagged;
use isomdl::definitions::device_response::{Document, Status};
use isomdl::definitions::helpers::{ByteStr, NonEmptyMap, NonEmptyVec, Tag24};
use isomdl::definitions::{DeviceAuth, DeviceResponse, DeviceSigned, DigestId, IssuerSigned, IssuerSignedItem};
use isomdl::presentation::authentication::{AuthenticationStatus, ResponseAuthenticationOutcome};
use sha2::{Digest, Sha256};
use std::collections::BTreeMap;

type TestKem = hpke::kem::DhP256HkdfSha256;

struct SystemRng;

impl RngCore for SystemRng {
    fn next_u32(&mut self) -> u32 {
        let mut bytes = [0u8; 4];
        self.fill_bytes(&mut bytes);
        u32::from_le_bytes(bytes)
    }

    fn next_u64(&mut self) -> u64 {
        let mut bytes = [0u8; 8];
        self.fill_bytes(&mut bytes);
        u64::from_le_bytes(bytes)
    }

    fn fill_bytes(&mut self, dest: &mut [u8]) {
        getrandom::fill(dest).unwrap()
    }
}

impl CryptoRng for SystemRng {}

const ORIGIN: &str = "https://verifier.example";
const CLIENT_ID: &str = "x509_san_dns:verifier.example";

fn to_cbor(value: &Value) -> Vec<u8> {
    let mut out = Vec::new();
    ciborium::into_writer(value, &mut out).unwrap();
    out
}

fn unsigned() -> MaybeTagged<coset::CoseSign1> {
    MaybeTagged::new(
        false,
        coset::CoseSign1Builder::new().payload(vec![1, 2, 3]).signature(vec![0u8; 64]).build(),
    )
}

// A response without documents: it is a device response, but nothing in it parses.
fn empty_response() -> Vec<u8> {
    let response = DeviceResponse {
        version: "1.0".to_string(),
        documents: None,
        document_errors: None,
        status: Status::OK,
    };
    isomdl::cbor::to_vec(&response).unwrap()
}

// A response whose document carries claims but no certificate chain: strict parsing fails,
// the claims can still be read.
fn chainless_response() -> Vec<u8> {
    let item = IssuerSignedItem {
        digest_id: DigestId::new(0),
        random: ByteStr::from(vec![7u8; 16]),
        element_identifier: "given_name".to_string(),
        element_value: Value::Text("Alice".to_string()),
    };
    let namespaces = NonEmptyMap::new(
        "org.iso.18013.5.1".to_string(),
        NonEmptyVec::new(Tag24::new(item).unwrap()),
    );
    let document = Document {
        doc_type: "org.iso.18013.5.1.mDL".to_string(),
        issuer_signed: IssuerSigned { namespaces: Some(namespaces), issuer_auth: unsigned() },
        device_signed: DeviceSigned {
            namespaces: Tag24::new(BTreeMap::new()).unwrap(),
            device_auth: DeviceAuth::DeviceSignature(unsigned()),
        },
        errors: None,
    };
    let response = DeviceResponse {
        version: "1.0".to_string(),
        documents: Some(NonEmptyVec::new(document)),
        document_errors: None,
        status: Status::OK,
    };
    isomdl::cbor::to_vec(&response).unwrap()
}

fn annex_c_state_and_response(plaintext: &[u8]) -> (annex_c::InitiatedSessionState, annex_c::DCAPIResponseData) {
    let setup = annex_c::encryption_setup(&[5u8; 32], &[6u8; 16], ORIGIN).unwrap();
    let info = BASE64_URL_SAFE_NO_PAD.decode(&setup.encryption_info).unwrap();
    let value: Value = ciborium::from_reader(info.as_slice()).unwrap();
    let entries = value.into_array().unwrap()[1].clone().into_map().unwrap();
    let key = entries[1].1.clone().into_map().unwrap();
    let mut public_key = vec![4u8];
    public_key.extend_from_slice(key[2].1.as_bytes().unwrap());
    public_key.extend_from_slice(key[3].1.as_bytes().unwrap());
    let pk = <TestKem as Kem>::PublicKey::from_bytes(&public_key).unwrap();
    let (enc, cipher_text) = hpke::single_shot_seal::<
        hpke::aead::AesGcm128,
        hpke::kdf::HkdfSha256,
        TestKem,
        _,
    >(&OpModeS::Base, &pk, &setup.session_transcript_bytes, plaintext, b"", &mut SystemRng)
    .unwrap();
    let wire = Value::Array(vec![
        Value::Text("dcapi".into()),
        Value::Map(vec![
            (Value::Text("enc".into()), Value::Bytes(enc.to_bytes().to_vec())),
            (Value::Text("cipherText".into()), Value::Bytes(cipher_text)),
        ]),
    ]);
    (
        annex_c::InitiatedSessionState::new(setup.private_key, setup.session_transcript_bytes),
        annex_c::DCAPIResponseData::new(BASE64_URL_SAFE_NO_PAD.encode(to_cbor(&wire))),
    )
}

fn annex_d_state() -> annex_d::InitiatedSessionState {
    annex_d::InitiatedSessionState::new(
        "0b6d6a0e-3c5c-4b7e-9a51-3a1f8f0f2d11".to_string(),
        ORIGIN.to_string(),
        "bm9uY2U".to_string(),
    )
}

fn annex_d_response(bytes: &[u8]) -> annex_d::DCAPIResponseData {
    annex_d::DCAPIResponseData::new(vec![("0".to_string(), BASE64_URL_SAFE_NO_PAD.encode(bytes))])
        .unwrap()
}

fn initiated_session() -> Session {
    let mut session = Session::with_secret("id".to_string(), "secret".to_string()).session;
    let (c, _) = annex_c_state_and_response(&empty_response());
    session.initiate(c, annex_d_state()).unwrap();
    session
}

#[test]
fn annex_c_partial_parse_recovers_claims_and_reports_the_error() {
    let (state, response) = annex_c_state_and_response(&chainless_response());
    let submission = annex_c::submit_dc_response_inner(&state, &response).unwrap();
    assert_eq!(submission.session_transcript.0 .0, "dcapi");
    match submission.parsed {
        Parsed::Partial(outcome) => {
            assert_eq!(outcome.errors.len(), 1);
            let messages = outcome.errors.get("parsing_errors").unwrap().as_array().unwrap();
            assert_eq!(messages.len(), 1);
            assert!(messages[0].as_str().unwrap().contains("X5ChainMissing"));
            assert_eq!(outcome.response.len(), 1);
            assert_eq!(
                outcome.response.get("org.iso.18013.5.1").unwrap().get("given_name").unwrap(),
                &serde_json::Value::String("Alice".to_string())
            );
            assert_eq!(outcome.issuer_authentication, AuthenticationStatus::Unchecked);
            assert_eq!(outcome.device_authentication, AuthenticationStatus::Unchecked);
        }
        Parsed::Complete(_) => panic!("a document without a chain must not parse"),
    }
}

#[test]
fn annex_c_partial_parse_without_claims_reports_only_the_error() {
    let (state, response) = annex_c_state_and_response(&empty_response());
    let submission = annex_c::submit_dc_response_inner(&state, &response).unwrap();
    match submission.parsed {
        Parsed::Partial(outcome) => {
            assert!(outcome.response.is_empty());
            assert_eq!(outcome.errors.len(), 1);
            let messages = outcome.errors.get("parsing_errors").unwrap().as_array().unwrap();
            assert_eq!(messages.len(), 1);
            assert!(messages[0].is_string());
            assert_eq!(outcome.issuer_authentication, AuthenticationStatus::Unchecked);
            assert_eq!(outcome.device_authentication, AuthenticationStatus::Unchecked);
        }
        Parsed::Complete(_) => panic!("a response without documents must not parse"),
    }
}

#[test]
fn annex_c_submission_carries_the_stored_handover() {
    let (state, response) = annex_c_state_and_response(&empty_response());
    let submission = annex_c::submit_dc_response_inner(&state, &response).unwrap();
    let stored: Value = ciborium::from_reader(state.session_transcript_bytes().as_slice()).unwrap();
    let handover = stored.into_array().unwrap()[2].clone().into_array().unwrap();
    assert_eq!(handover[0], Value::Text(submission.session_transcript.0 .0.clone()));
    assert_eq!(handover[1], Value::Bytes(submission.session_transcript.0 .1.clone()));
    let again = submission.session_transcript.to_bytes().unwrap();
    assert_eq!(&again, state.session_transcript_bytes());
}

#[test]
fn annex_c_plaintext_that_is_no_device_response_is_refused() {
    let (state, response) = annex_c_state_and_response(b"not cbor for a response");
    let err = annex_c::submit_dc_response_inner(&state, &response).err().unwrap();
    assert_eq!(err.step, SubmitStep::DeviceResponse);
    assert_eq!(err.status(), 400);
}

fn sealed_under(info: &[u8], plaintext: &[u8]) -> (annex_c::InitiatedSessionState, annex_c::DCAPIResponseData) {
    let setup = annex_c::encryption_setup(&[5u8; 32], &[6u8; 16], ORIGIN).unwrap();
    let text = BASE64_URL_SAFE_NO_PAD.decode(&setup.encryption_info).unwrap();
    let value: Value = ciborium::from_reader(text.as_slice()).unwrap();
    let key =
        value.into_array().unwrap()[1].clone().into_map().unwrap()[1].1.clone().into_map().unwrap();
    let mut public_key = vec![4u8];
    public_key.extend_from_slice(key[2].1.as_bytes().unwrap());
    public_key.extend_from_slice(key[3].1.as_bytes().unwrap());
    let pk = <TestKem as Kem>::PublicKey::from_bytes(&public_key).unwrap();
    let (enc, cipher_text) = hpke::single_shot_seal::<
        hpke::aead::AesGcm128,
        hpke::kdf::HkdfSha256,
        TestKem,
        _,
    >(&OpModeS::Base, &pk, info, plaintext, b"", &mut SystemRng)
    .unwrap();
    let wire = Value::Array(vec![
        Value::Text("dcapi".into()),
        Value::Map(vec![
            (Value::Text("enc".into()), Value::Bytes(enc.to_bytes().to_vec())),
            (Value::Text("cipherText".into()), Value::Bytes(cipher_text)),
        ]),
    ]);
    (
        annex_c::InitiatedSessionState::new(setup.private_key, info.to_vec()),
        annex_c::DCAPIResponseData::new(BASE64_URL_SAFE_NO_PAD.encode(to_cbor(&wire))),
    )
}

#[test]
fn annex_c_stored_transcript_of_another_shape_is_refused() {
    let handover = Value::Array(vec![Value::Text("dcapi".into()), Value::Bytes(vec![1u8; 32])]);
    let shapes = vec![
        Value::Array(vec![Value::Null, Value::Text("x".into())]),
        Value::Array(vec![Value::Integer(1.into()), Value::Null, handover.clone()]),
        Value::Array(vec![Value::Null, Value::Bool(false), handover.clone()]),
        Value::Array(vec![Value::Null, Value::Null, Value::Text("dcapi".into())]),
        Value::Array(vec![
            Value::Null,
            Value::Null,
            Value::Array(vec![Value::Bytes(vec![1u8; 32]), Value::Text("dcapi".into())]),
        ]),
        Value::Array(vec![Value::Null, Value::Null, handover.clone(), Value::Null]),
        Value::Map(vec![]),
    ];
    for shape in shapes {
        let (state, response) = sealed_under(&to_cbor(&shape), &empty_response());
        let err = annex_c::submit_dc_response_inner(&state, &response).err().unwrap();
        assert_eq!(err.step, SubmitStep::StoredTranscript);
    }
    let (state, response) = sealed_under(b"\xff\xff", &empty_response());
    let err = annex_c::submit_dc_response_inner(&state, &response).err().unwrap();
    assert_eq!(err.step, SubmitStep::StoredTranscript);

    let well_formed = Value::Array(vec![Value::Null, Value::Null, handover]);
    let (state, response) = sealed_under(&to_cbor(&well_formed), &empty_response());
    let submission = annex_c::submit_dc_response_inner(&state, &response).unwrap();
    assert_eq!(submission.session_transcript.0 .1, vec![1u8; 32]);
}

#[test]
fn annex_d_submission_recomputes_the_handover_from_committed_inputs() {
    let state = annex_d_state();
    let submission =
        annex_d::submit_dc_response_inner(&state, CLIENT_ID, &annex_d_response(&empty_response()))
            .unwrap();
    let info = to_cbor(&Value::Array(vec![
        Value::Text(ORIGIN.into()),
        Value::Text(CLIENT_ID.into()),
        Value::Text("bm9uY2U".into()),
    ]));
    assert_eq!(submission.session_transcript.0 .0, "OpenID4VPDCAPIHandover");
    assert_eq!(submission.session_transcript.0 .1, Sha256::digest(&info).to_vec());
    assert_eq!(
        submission.session_transcript.to_bytes().unwrap(),
        annex_d::session_transcript_bytes(&state, CLIENT_ID).unwrap()
    );
}

#[test]
fn annex_d_partial_parse_recovers_claims_and_reports_the_error() {
    let submission = annex_d::submit_dc_response_inner(
        &annex_d_state(),
        CLIENT_ID,
        &annex_d_response(&chainless_response()),
    )
    .unwrap();
    match submission.parsed {
        Parsed::Partial(outcome) => {
            assert_eq!(outcome.response.len(), 1);
            assert_eq!(
                outcome.response.get("org.iso.18013.5.1").unwrap().get("given_name").unwrap(),
                &serde_json::Value::String("Alice".to_string())
            );
            assert_eq!(outcome.errors.len(), 1);
            let messages = outcome.errors.get("parsing_errors").unwrap().as_array().unwrap();
            assert_eq!(messages.len(), 1);
            assert!(messages[0].as_str().unwrap().contains("X5ChainMissing"));
            assert_eq!(outcome.issuer_authentication, AuthenticationStatus::Unchecked);
            assert_eq!(outcome.device_authentication, AuthenticationStatus::Unchecked);
        }
        Parsed::Complete(_) => panic!("a document without a chain must not parse"),
    }
}

#[test]
fn annex_d_partial_parse_without_claims_reports_only_the_error() {
    let submission = annex_d::submit_dc_response_inner(
        &annex_d_state(),
        CLIENT_ID,
        &annex_d_response(&empty_response()),
    )
    .unwrap();
    match submission.parsed {
        Parsed::Partial(outcome) => {
            assert!(outcome.response.is_empty());
            assert_eq!(outcome.errors.len(), 1);
            assert_eq!(
                outcome.errors.get("parsing_errors").unwrap().as_array().unwrap().len(),
                1
            );
        }
        Parsed::Complete(_) => panic!("a response without documents must not parse"),
    }
}

#[test]
fn annex_d_malformed_tokens_are_client_errors() {
    let state = annex_d_state();
    let not_base64 =
        annex_d::DCAPIResponseData::new(vec![("0".to_string(), "***".to_string())]).unwrap();
    let err = annex_d::submit_dc_response_inner(&state, CLIENT_ID, &not_base64).err().unwrap();
    assert_eq!(err.step, SubmitStep::Encoding);
    let err = annex_d::submit_dc_response_inner(&state, CLIENT_ID, &annex_d_response(&[0xff]))
        .err()
        .unwrap();
    assert_eq!(err.step, SubmitStep::DeviceResponse);
    assert!(annex_d::DCAPIResponseData::new(vec![]).is_none());
}

#[test]
fn annex_d_first_token_is_taken() {
    let data = annex_d::DCAPIResponseData::new(vec![
        ("0".to_string(), BASE64_URL_SAFE_NO_PAD.encode(empty_response())),
        ("1".to_string(), "***".to_string()),
    ])
    .unwrap();
    assert!(annex_d::submit_dc_response_inner(&annex_d_state(), CLIENT_ID, &data).is_ok());
}

#[test]
fn response_goes_to_the_exchange_it_is_tagged_for() {
    let mut session = Session::with_secret("id".to_string(), "secret".to_string()).session;
    let (c, c_response) = annex_c_state_and_response(&empty_response());
    session.initiate(c, annex_d_state()).unwrap();
    let tagged_c = DCAPIResponse::OrgIsoMDoc { data: c_response };
    assert!(matches!(
        submit_response(&session, CLIENT_ID, &tagged_c),
        Ok(Submission::OrgIsoMDoc(_))
    ));
    let tagged_d = DCAPIResponse::OpenId4VP { data: annex_d_response(&empty_response()) };
    assert!(matches!(
        submit_response(&session, CLIENT_ID, &tagged_d),
        Ok(Submission::OpenId4VP(_))
    ));
}

#[test]
fn flipped_cipher_text_bit_leaves_session_initiated() {
    let mut session = Session::with_secret("id".to_string(), "secret".to_string()).session;
    let (c, c_response) = annex_c_state_and_response(&empty_response());
    session.initiate(c, annex_d_state()).unwrap();
    let mut wire = BASE64_URL_SAFE_NO_PAD.decode(c_response.response()).unwrap();
    let last = wire.len() - 1;
    wire[last] ^= 0x01;
    let tampered = DCAPIResponse::OrgIsoMDoc {
        data: annex_c::DCAPIResponseData::new(BASE64_URL_SAFE_NO_PAD.encode(wire)),
    };
    match submit_response(&session, CLIENT_ID, &tampered) {
        Err(SubmitRejection::Unusable(e)) => {
            assert_eq!(e.step, SubmitStep::Decryption);
            assert_eq!(e.status(), 400);
        }
        _ => panic!("a tampered cipher text must be refused as unusable"),
    }
    assert!(matches!(session.state, SessionState::Initiated { .. }));
    assert!(session.initiated().is_ok());
}

#[test]
fn completed_session_refuses_a_repeated_submit() {
    let mut session = initiated_session();
    let response = DCAPIResponse::OpenId4VP { data: annex_d_response(&empty_response()) };
    assert!(submit_response(&session, CLIENT_ID, &response).is_ok());
    let mut outcome = ResponseAuthenticationOutcome::default();
    outcome.response.insert(
        "org.iso.18013.5.1".to_string(),
        serde_json::Value::String("given_name and family_name".to_string()),
    );
    assert_eq!(session.complete(outcome.clone()), Ok(()));
    assert!(matches!(&session.state, SessionState::Completed(o) if *o == outcome));

    assert!(matches!(
        submit_response(&session, CLIENT_ID, &response),
        Err(SubmitRejection::InvalidState)
    ));
    assert_eq!(
        session.complete(ResponseAuthenticationOutcome::default()),
        Err(SessionError::InvalidState)
    );
    assert!(matches!(&session.state, SessionState::Completed(o) if *o == outcome));
}

#[test]
fn created_session_takes_no_response() {
    let session = Session::with_secret("id".to_string(), "secret".to_string()).session;
    let response = DCAPIResponse::OpenId4VP { data: annex_d_response(&empty_response()) };
    assert!(matches!(
        submit_response(&session, CLIENT_ID, &response),
        Err(SubmitRejection::InvalidState)
    ));
}
