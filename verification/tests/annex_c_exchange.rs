use base64::prelude::{Engine, BASE64_URL_SAFE_NO_PAD};
use ciborium::Value;
use dc_api_core::annex_c::{
    encryption_setup, open_response, DCAPIResponseData, Handover, InitiatedSessionState,
    SessionTranscriptDCAPI,
};
use dc_api_core::error::SubmitStep;
use hpke::rand_core::{CryptoRng, RngCore};
use hpke::{Deserializable, Kem, OpModeS, Serializable};
use sha2::{Digest, Sha256};

type TestKem = hpke::kem::DhP256HkdfSha256;

struct OsRng;

impl RngCore for OsRng {
    fn next_u32(&mut self) -> u32 {
        let mut bytes = [0u8; 4];
        self.fill_bytes(&mut bytes);
        u32::from_le_bytes(bytes)
    }

    fn next_u64(&mut self) -> u64 {
        let mut bytes = [0u8; 8];
        self.fill_bytes(&mut bytes);
        u64::from_le_bytes(bytes)
    }

    fn fill_bytes(&mut self, dest: &mut [u8]) {
        getrandom::fill(dest).unwrap()
    }
}

impl CryptoRng for OsRng {}

fn cbor(value: &Value) -> Vec<u8> {
    let mut out = Vec::new();
    ciborium::into_writer(value, &mut out).unwrap();
    out
}

fn recipient_key(encryption_info: &str) -> Vec<u8> {
    let bytes = BASE64_URL_SAFE_NO_PAD.decode(encryption_info).unwrap();
    let value: Value = ciborium::from_reader(bytes.as_slice()).unwrap();
    let items = value.into_array().unwrap();
    let entries = items[1].clone().into_map().unwrap();
    let key = entries[1].1.clone().into_map().unwrap();
    let mut out = vec![4u8];
    out.extend_from_slice(key[2].1.as_bytes().unwrap());
    out.extend_from_slice(key[3].1.as_bytes().unwrap());
    out
}

fn seal(public_key: &[u8], info: &[u8], plaintext: &[u8]) -> (Vec<u8>, Vec<u8>) {
    let pk = <TestKem as Kem>::PublicKey::from_bytes(public_key).unwrap();
    let (enc, cipher_text) = hpke::single_shot_seal::<
        hpke::aead::AesGcm128,
        hpke::kdf::HkdfSha256,
        TestKem,
        _,
    >(&OpModeS::Base, &pk, info, plaintext, b"", &mut OsRng)
    .unwrap();
    (enc.to_bytes().to_vec(), cipher_text)
}

fn response(enc: &[u8], cipher_text: &[u8]) -> DCAPIResponseData {
    let value = Value::Array(vec![
        Value::Text("dcapi".into()),
        Value::Map(vec![
            (Value::Text("enc".into()), Value::Bytes(enc.to_vec())),
            (Value::Text("cipherText".into()), Value::Bytes(cipher_text.to_vec())),
        ]),
    ]);
    DCAPIResponseData::new(BASE64_URL_SAFE_NO_PAD.encode(cbor(&value)))
}

const IKM: [u8; 32] = [7u8; 32];
const NONCE: [u8; 16] = [9u8; 16];
const ORIGIN: &str = "https://verifier.example";

#[test]
fn handover_is_tag_and_digest_of_inputs() {
    let handover = Handover::new("abc".to_string(), ORIGIN.to_string()).unwrap();
    let info = cbor(&Value::Array(vec![
        Value::Text("abc".into()),
        Value::Text(ORIGIN.into()),
    ]));
    assert_eq!(handover.0, "dcapi");
    assert_eq!(handover.1, Sha256::digest(&info).to_vec());
    // 0x82: array of two; 0x63: text of three bytes; 0x78 0x18: text of 24 bytes.
    assert_eq!(&info[..5], &[0x82, 0x63, b'a', b'b', b'c']);
    assert_eq!(&info[5..7], &[0x78, 0x18]);
}

#[test]
fn transcript_is_null_null_handover() {
    let handover = Handover::new("abc".to_string(), ORIGIN.to_string()).unwrap();
    let digest = handover.1.clone();
    let bytes = SessionTranscriptDCAPI::new(handover).to_bytes().unwrap();
    let mut expected = vec![0x83, 0xf6, 0xf6, 0x82, 0x65];
    expected.extend_from_slice(b"dcapi");
    expected.extend_from_slice(&[0x58, 0x20]);
    expected.extend_from_slice(&digest);
    assert_eq!(bytes, expected);
}

#[test]
fn setup_is_deterministic_in_its_inputs() {
    let a = encryption_setup(&IKM, &NONCE, ORIGIN).unwrap();
    let b = encryption_setup(&IKM, &NONCE, ORIGIN).unwrap();
    assert_eq!(a.encryption_info, b.encryption_info);
    assert_eq!(a.private_key, b.private_key);
    assert_eq!(a.session_transcript_bytes, b.session_transcript_bytes);
    assert_eq!(a.handover.1, b.handover.1);
}

#[test]
fn setup_changes_with_origin_nonce_and_key_material() {
    let a = encryption_setup(&IKM, &NONCE, ORIGIN).unwrap();
    let other_origin = encryption_setup(&IKM, &NONCE, "https://other.example").unwrap();
    let other_nonce = encryption_setup(&IKM, &[1u8; 16], ORIGIN).unwrap();
    let other_key = encryption_setup(&[8u8; 32], &NONCE, ORIGIN).unwrap();
    assert_eq!(a.encryption_info, other_origin.encryption_info);
    assert_ne!(a.session_transcript_bytes, other_origin.session_transcript_bytes);
    assert_ne!(a.encryption_info, other_nonce.encryption_info);
    assert_ne!(a.session_transcript_bytes, other_nonce.session_transcript_bytes);
    assert_ne!(a.private_key, other_key.private_key);
    assert_ne!(a.encryption_info, other_key.encryption_info);
}

#[test]
fn setup_binds_transcript_to_encryption_info_and_origin() {
    let setup = encryption_setup(&IKM, &NONCE, ORIGIN).unwrap();
    let handover = Handover::new(setup.encryption_info.clone(), ORIGIN.to_string()).unwrap();
    assert_eq!(handover.1, setup.handover.1);
    let bytes = SessionTranscriptDCAPI::new(handover).to_bytes().unwrap();
    assert_eq!(bytes, setup.session_transcript_bytes);
    assert_eq!(setup.private_key.len(), 32);
}

#[test]
fn encryption_info_holds_tag_nonce_and_cose_key() {
    let setup = encryption_setup(&IKM, &NONCE, ORIGIN).unwrap();
    let bytes = BASE64_URL_SAFE_NO_PAD.decode(&setup.encryption_info).unwrap();
    let value: Value = ciborium::from_reader(bytes.as_slice()).unwrap();
    let items = value.into_array().unwrap();
    assert_eq!(items.len(), 2);
    assert_eq!(items[0], Value::Text("dcapi".into()));
    let entries = items[1].clone().into_map().unwrap();
    assert_eq!(entries.len(), 2);
    assert_eq!(entries[0].0, Value::Text("nonce".into()));
    assert_eq!(entries[0].1, Value::Bytes(NONCE.to_vec()));
    assert_eq!(entries[1].0, Value::Text("recipientPublicKey".into()));
    let key = entries[1].1.clone().into_map().unwrap();
    assert_eq!(key[0], (Value::Integer(1.into()), Value::Integer(2.into())));
    assert_eq!(key[1], (Value::Integer((-1).into()), Value::Integer(1.into())));
    assert_eq!(key[2].0, Value::Integer((-2).into()));
    assert_eq!(key[3].0, Value::Integer((-3).into()));
    assert_eq!(key[2].1.as_bytes().unwrap().len(), 32);
    assert_eq!(key[3].1.as_bytes().unwrap().len(), 32);
    let sk = <TestKem as Kem>::PrivateKey::from_bytes(&setup.private_key).unwrap();
    let pk = <TestKem as Kem>::sk_to_pk(&sk);
    assert_eq!(pk.to_bytes().to_vec(), recipient_key(&setup.encryption_info));
}

#[test]
fn encrypt_then_open_recovers_plaintext() {
    let setup = encryption_setup(&IKM, &NONCE, ORIGIN).unwrap();
    let public_key = recipient_key(&setup.encryption_info);
    let (enc, cipher_text) = seal(&public_key, &setup.session_transcript_bytes, b"device response");
    let state = InitiatedSessionState::new(setup.private_key, setup.session_transcript_bytes);
    let plaintext = open_response(&state, &response(&enc, &cipher_text)).unwrap();
    assert_eq!(plaintext, b"device response".to_vec());
}

#[test]
fn flipped_transcript_byte_fails_decryption() {
    let setup = encryption_setup(&IKM, &NONCE, ORIGIN).unwrap();
    let public_key = recipient_key(&setup.encryption_info);
    let (enc, cipher_text) = seal(&public_key, &setup.session_transcript_bytes, b"device response");
    for at in [0usize, 5, setup.session_transcript_bytes.len() - 1] {
        let mut transcript = setup.session_transcript_bytes.clone();
        transcript[at] ^= 1;
        let state = InitiatedSessionState::new(setup.private_key.clone(), transcript);
        let err = open_response(&state, &response(&enc, &cipher_text)).unwrap_err();
        assert_eq!(err.step, SubmitStep::Decryption);
        assert_eq!(err.status(), 400);
    }
}

#[test]
fn flipped_cipher_text_bit_fails_decryption() {
    let setup = encryption_setup(&IKM, &NONCE, ORIGIN).unwrap();
    let public_key = recipient_key(&setup.encryption_info);
    let (enc, mut cipher_text) =
        seal(&public_key, &setup.session_transcript_bytes, b"device response");
    cipher_text[3] ^= 0x10;
    let state = InitiatedSessionState::new(setup.private_key, setup.session_transcript_bytes);
    let err = open_response(&state, &response(&enc, &cipher_text)).unwrap_err();
    assert_eq!(err.step, SubmitStep::Decryption);
}

#[test]
fn malformed_responses_are_client_errors() {
    let setup = encryption_setup(&IKM, &NONCE, ORIGIN).unwrap();
    let public_key = recipient_key(&setup.encryption_info);
    let (enc, cipher_text) = seal(&public_key, &setup.session_transcript_bytes, b"x");
    let state =
        InitiatedSessionState::new(setup.private_key.clone(), setup.session_transcript_bytes.clone());

    let err = open_response(&state, &DCAPIResponseData::new("not base64!".into())).unwrap_err();
    assert_eq!(err.step, SubmitStep::Encoding);

    let not_cbor = DCAPIResponseData::new(BASE64_URL_SAFE_NO_PAD.encode([0xffu8]));
    assert_eq!(open_response(&state, &not_cbor).unwrap_err().step, SubmitStep::Structure);

    let no_cipher_text = Value::Array(vec![
        Value::Text("dcapi".into()),
        Value::Map(vec![(Value::Text("enc".into()), Value::Bytes(enc.clone()))]),
    ]);
    let data = DCAPIResponseData::new(BASE64_URL_SAFE_NO_PAD.encode(cbor(&no_cipher_text)));
    assert_eq!(open_response(&state, &data).unwrap_err().step, SubmitStep::Structure);

    let twice = Value::Array(vec![
        Value::Text("dcapi".into()),
        Value::Map(vec![
            (Value::Text("enc".into()), Value::Bytes(enc.clone())),
            (Value::Text("enc".into()), Value::Bytes(enc.clone())),
            (Value::Text("cipherText".into()), Value::Bytes(cipher_text.clone())),
        ]),
    ]);
    let data = DCAPIResponseData::new(BASE64_URL_SAFE_NO_PAD.encode(cbor(&twice)));
    assert_eq!(open_response(&state, &data).unwrap_err().step, SubmitStep::Structure);

    let short_key = response(&enc[..10], &cipher_text);
    assert_eq!(open_response(&state, &short_key).unwrap_err().step, SubmitStep::EncappedKey);

    let bad_state = InitiatedSessionState::new(vec![0u8; 32], setup.session_transcript_bytes);
    let err = open_response(&bad_state, &response(&enc, &cipher_text)).unwrap_err();
    assert_eq!(err.step, SubmitStep::PrivateKey);
}

#[test]
fn extra_entries_in_response_are_passed_over() {
    let setup = encryption_setup(&IKM, &NONCE, ORIGIN).unwrap();
    let public_key = recipient_key(&setup.encryption_info);
    let (enc, cipher_text) = seal(&public_key, &setup.session_transcript_bytes, b"payload");
    let value = Value::Array(vec![
        Value::Text("dcapi".into()),
        Value::Map(vec![
            (Value::Text("other".into()), Value::Bool(true)),
            (Value::Text("cipherText".into()), Value::Bytes(cipher_text)),
            (Value::Integer(3.into()), Value::Null),
            (Value::Text("enc".into()), Value::Bytes(enc)),
        ]),
    ]);
    let data = DCAPIResponseData::new(BASE64_URL_SAFE_NO_PAD.encode(cbor(&value)));
    let state = InitiatedSessionState::new(setup.private_key, setup.session_transcript_bytes);
    assert_eq!(open_response(&state, &data).unwrap(), b"payload".to_vec());
}
