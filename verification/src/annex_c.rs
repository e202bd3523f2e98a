//! The direct, encrypted exchange.

use crate::cbor::{
    byte_string_field, cbor_array, cbor_as_array, cbor_as_map, cbor_bytes, cbor_decoding,
    cbor_encoding, cbor_entry_models, cbor_error_text, cbor_from_slice, cbor_map, cbor_model,
    cbor_models, cbor_text, cbor_text_of, cbor_to_vec, read_byte_string_field, CborModel,
};
use crate::config::Oid4VpConfig;
use crate::device_request::{
    byte_strings, certificate_chain_model, certificate_chain_value, certificates_model,
    certificates_value, check_signing_key, cose_sign1_model, device_request_bytes,
    device_request_encoding, device_request_info_bytes, device_request_info_encoding,
    es256_sign1_value, es256_signature, es256_signature_payload, items_request_bytes,
    items_request_encoding, reader_authentication_bytes, reader_authentication_encoding,
    retained_view, sign_es256, signature_payload_encoding, signing_key_accepted,
};
use crate::encoding::{
    base64url_bytes, base64url_decode, base64url_encode, base64url_text, decode_error_text,
    sha256, sha256_digest,
};
use crate::error::{InitiateError, InitiateStep, SubmitError, SubmitStep};
use crate::key_agreement::{
    check_encapped_key, check_private_key, derive_keypair, derived_keypair,
    encapped_key_rejected, hpke_error_text, open, opened, private_key_rejected,
    PRIVATE_KEY_LEN, PUBLIC_KEY_LEN,
};
use crate::mdoc::{
    decode_device_response, decoded_device_response, parse_response, parsed_as, Parsed,
};
use crate::rng::GetRandomRng;
use crate::transcript::{
    handover_model, read_transcript, stored_handover, transcript_encoding, transcript_model,
    transcript_to_bytes, transcript_value,
};
use crate::types::{DCAPINamespaceRequest, DCAPIRequestOrgIsoMDoc};
use hpke::HpkeError;
use vstd::prelude::*;

verus! {

/// What a session keeps between initiating this exchange and receiving the
/// holder's response: the private key of the key agreement and the bytes of
/// the session transcript, exactly as they were when the request was made.
#[derive(Clone, Debug)]
pub struct InitiatedSessionState {
    private_key: Vec<u8>,
    session_transcript_bytes: Vec<u8>,
}

impl InitiatedSessionState {
    /// The state that holds the given key and transcript bytes.
    pub fn new(private_key: Vec<u8>, session_transcript_bytes: Vec<u8>) -> (r: Self)
        ensures
            r.private_key()@ == private_key@,
            r.session_transcript_bytes()@ == session_transcript_bytes@,
    {
        InitiatedSessionState { private_key, session_transcript_bytes }
    }

    /// The serialized private key of the key agreement.
    #[verifier::when_used_as_spec(spec_private_key)]
    pub fn private_key(&self) -> (r: &Vec<u8>)
        ensures
            r == self.spec_private_key(),
    {
        &self.private_key
    }

    pub closed spec fn spec_private_key(&self) -> &Vec<u8> {
        &self.private_key
    }

    /// The bytes of the session transcript committed to at initiation.
    #[verifier::when_used_as_spec(spec_session_transcript_bytes)]
    pub fn session_transcript_bytes(&self) -> (r: &Vec<u8>)
        ensures
            r == self.spec_session_transcript_bytes(),
    {
        &self.session_transcript_bytes
    }

    pub closed spec fn spec_session_transcript_bytes(&self) -> &Vec<u8> {
        &self.session_transcript_bytes
    }
}

/// The holder's response as submitted: base64 text.
#[derive(Clone, Debug)]
pub struct DCAPIResponseData {
    response: String,
}

impl DCAPIResponseData {
    /// The response that holds the given text.
    pub fn new(response: String) -> (r: Self)
        ensures
            r.response()@ == response@,
    {
        DCAPIResponseData { response }
    }

    /// The submitted text.
    #[verifier::when_used_as_spec(spec_response)]
    pub fn response(&self) -> (r: &String)
        ensures
            r == self.spec_response(),
    {
        &self.response
    }

    pub closed spec fn spec_response(&self) -> &String {
        &self.response
    }
}

/// The inputs of the handover: the encryption parameters as base64 text, and
/// the origin.
#[derive(Clone, Debug)]
pub struct HandoverInfo(pub String, pub String);

/// The handover: a protocol tag and the digest that binds the exchange to
/// its encryption parameters and its origin.
#[derive(Clone, Debug)]
pub struct Handover(pub String, pub Vec<u8>);

/// The session transcript: two empty places for the device engagement and
/// the reader key, which this exchange does not use, and the handover.
#[derive(Clone, Debug)]
pub struct SessionTranscriptDCAPI<H>(pub H);

/// The tag of this exchange, in the encryption parameters and the handover.
pub open spec fn protocol_tag() -> Seq<char> {
    "dcapi"@
}

/// The first coordinate of a serialized public key.
pub open spec fn public_key_x(public_key: Seq<u8>) -> Seq<u8> {
    public_key.subrange(1, 33)
}

/// The second coordinate of a serialized public key.
pub open spec fn public_key_y(public_key: Seq<u8>) -> Seq<u8> {
    public_key.subrange(33, 65)
}

/// The data items of a P-256 public key as a COSE key: key type 2 (EC2)
/// under label 1, curve 1 (P-256) under label -1, and the two coordinates
/// under labels -2 and -3.
pub open spec fn cose_key_model(x: Seq<u8>, y: Seq<u8>) -> CborModel {
    CborModel::Entries(
        seq![
            (CborModel::Integer(1), CborModel::Integer(2)),
            (CborModel::Integer(-1), CborModel::Integer(1)),
            (CborModel::Integer(-2), CborModel::Bytes(x)),
            (CborModel::Integer(-3), CborModel::Bytes(y)),
        ],
    )
}

/// The data items of the encryption parameters: the protocol tag, then the
/// nonce and the recipient's public key under their names.
pub open spec fn encryption_info_model(nonce: Seq<u8>, x: Seq<u8>, y: Seq<u8>) -> CborModel {
    CborModel::Array(
        seq![
            CborModel::Text(protocol_tag()),
            CborModel::Entries(
                seq![
                    (CborModel::Text("nonce"@), CborModel::Bytes(nonce)),
                    (CborModel::Text("recipientPublicKey"@), cose_key_model(x, y)),
                ],
            ),
        ],
    )
}

/// The encryption parameters as the base64 text that goes to the holder and
/// into the handover.
pub open spec fn encryption_info_text(nonce: Seq<u8>, public_key: Seq<u8>) -> Option<Seq<char>> {
    match cbor_encoding(
        encryption_info_model(nonce, public_key_x(public_key), public_key_y(public_key)),
    ) {
        Some(bytes) => Some(base64url_text(bytes)),
        None => None,
    }
}

/// The data items of the handover inputs: an array of two text strings.
pub open spec fn handover_info_model(encryption_info: Seq<char>, origin: Seq<char>) -> CborModel {
    CborModel::Array(seq![CborModel::Text(encryption_info), CborModel::Text(origin)])
}

/// The digest of the handover: SHA-256 over the encoded handover inputs.
pub open spec fn handover_digest(encryption_info: Seq<char>, origin: Seq<char>) -> Option<
    Seq<u8>,
> {
    match cbor_encoding(handover_info_model(encryption_info, origin)) {
        Some(bytes) => Some(sha256_digest(bytes)),
        None => None,
    }
}

/// The bytes of the session transcript for given encryption parameters and
/// origin.
pub open spec fn transcript_bytes(encryption_info: Seq<char>, origin: Seq<char>) -> Option<
    Seq<u8>,
> {
    match handover_digest(encryption_info, origin) {
        Some(digest) => transcript_encoding(protocol_tag(), digest),
        None => None,
    }
}

/// Calls `ciborium::Value::from` on an `isomdl::definitions::CoseKey` of
/// kind EC2 on curve P-256 with both coordinates given in full. The contract
/// states the map that the conversion builds.
#[verifier::external_body]
fn cose_key_value(x: &[u8], y: &[u8]) -> (r: ciborium::Value)
    ensures
        cbor_model(r) == cose_key_model(x@, y@),
{
    ciborium::Value::from(
        isomdl::definitions::CoseKey::EC2 {
            crv: isomdl::definitions::EC2Curve::P256,
            x: x.to_vec(),
            y: isomdl::definitions::EC2Y::Value(y.to_vec()),
        },
    )
}

/// The encryption parameters as CBOR: the protocol tag, the nonce and the
/// recipient's public key.
fn encryption_info_value(nonce: &[u8], x: &[u8], y: &[u8]) -> (r: ciborium::Value)
    ensures
        cbor_model(r) == encryption_info_model(nonce@, x@, y@),
{
    let mut entries: Vec<(ciborium::Value, ciborium::Value)> = Vec::new();
    entries.push((cbor_text("nonce"), cbor_bytes(nonce)));
    entries.push((cbor_text("recipientPublicKey"), cose_key_value(x, y)));
    assert(cbor_entry_models(entries@) =~= seq![
        (CborModel::Text("nonce"@), CborModel::Bytes(nonce@)),
        (CborModel::Text("recipientPublicKey"@), cose_key_model(x@, y@)),
    ]);
    let mut items: Vec<ciborium::Value> = Vec::new();
    items.push(cbor_text("dcapi"));
    items.push(cbor_map(entries));
    assert(cbor_models(items@) =~= seq![
        CborModel::Text(protocol_tag()),
        CborModel::Entries(
            seq![
                (CborModel::Text("nonce"@), CborModel::Bytes(nonce@)),
                (CborModel::Text("recipientPublicKey"@), cose_key_model(x@, y@)),
            ],
        ),
    ]);
    cbor_array(items)
}

impl HandoverInfo {
    /// The two inputs as an array of text strings.
    pub(crate) fn to_cbor(&self) -> (r: ciborium::Value)
        ensures
            cbor_model(r) == handover_info_model(self.0@, self.1@),
    {
        let mut items: Vec<ciborium::Value> = Vec::new();
        items.push(cbor_text(self.0.as_str()));
        items.push(cbor_text(self.1.as_str()));
        assert(cbor_models(items@) =~= seq![CborModel::Text(self.0@), CborModel::Text(self.1@)]);
        cbor_array(items)
    }
}

impl Handover {
    /// The handover for encryption parameters and an origin: the tag of this
    /// exchange and the SHA-256 digest of the two, encoded as an array of
    /// text strings.
    pub fn new(encryption_info_base64: String, origin: String) -> (r: Result<Handover, String>)
        ensures
            match r {
                Ok(handover) => {
                    &&& handover.0@ == protocol_tag()
                    &&& handover_digest(encryption_info_base64@, origin@) == Some(handover.1@)
                    &&& handover.1@.len() == 32
                },
                Err(_) => handover_digest(encryption_info_base64@, origin@) is None,
            },
    {
        let info = HandoverInfo(encryption_info_base64, origin);
        let value = info.to_cbor();
        match cbor_to_vec(&value) {
            Ok(bytes) => {
                let digest = sha256(bytes.as_slice());
                Ok(Handover("dcapi".to_owned(), digest))
            },
            Err(e) => Err(cbor_error_text(&e)),
        }
    }
}

impl<H> SessionTranscriptDCAPI<H> {
    /// The transcript around a handover.
    pub fn new(handover: H) -> (r: Self)
        ensures
            r.0 == handover,
    {
        SessionTranscriptDCAPI(handover)
    }
}

impl SessionTranscriptDCAPI<Handover> {
    /// The canonical bytes of the transcript. Reading them back gives the
    /// handover of this transcript.
    pub fn to_bytes(&self) -> (r: Result<Vec<u8>, String>)
        ensures
            match r {
                Ok(bytes) => transcript_encoding(self.0.0@, self.0.1@) == Some(bytes@)
                    && stored_handover(bytes@) == Some((self.0.0@, self.0.1@)),
                Err(_) => transcript_encoding(self.0.0@, self.0.1@) is None,
            },
    {
        transcript_to_bytes(self.0.0.as_str(), self.0.1.as_slice())
    }
}

/// The key material and the transcript that one request commits to.
#[derive(Debug)]
pub struct EncryptionSetup {
    /// The encryption parameters as base64 text.
    pub encryption_info: String,
    /// The serialized private key of the key agreement.
    pub private_key: Vec<u8>,
    /// The handover that binds the parameters to the origin.
    pub handover: Handover,
    /// The bytes of the session transcript.
    pub session_transcript_bytes: Vec<u8>,
}

/// What `encryption_setup` answers for given keying material, nonce and
/// origin: the failing step, or nothing where every step succeeds.
pub open spec fn encryption_setup_failure(
    ikm: Seq<u8>,
    nonce: Seq<u8>,
    origin: Seq<char>,
) -> Option<InitiateStep> {
    match encryption_info_text(nonce, derived_keypair(ikm).1) {
        None => Some(InitiateStep::EncryptionInfo),
        Some(text) => match handover_digest(text, origin) {
            None => Some(InitiateStep::Handover),
            Some(digest) => match transcript_encoding(protocol_tag(), digest) {
                None => Some(InitiateStep::SessionTranscript),
                Some(_) => None,
            },
        },
    }
}

/// Whether a setup is the one that keying material, a nonce and an origin
/// determine.
pub open spec fn made_from(
    setup: EncryptionSetup,
    ikm: Seq<u8>,
    nonce: Seq<u8>,
    origin: Seq<char>,
) -> bool {
    &&& encryption_setup_failure(ikm, nonce, origin) is None
    &&& derived_keypair(ikm).0.len() == PRIVATE_KEY_LEN
    &&& derived_keypair(ikm).1.len() == PUBLIC_KEY_LEN
    &&& setup.handover.1@.len() == 32
    &&& setup.private_key@ == derived_keypair(ikm).0
    &&& Some(setup.encryption_info@) == encryption_info_text(nonce, derived_keypair(ikm).1)
    &&& setup.handover.0@ == protocol_tag()
    &&& Some(setup.handover.1@) == handover_digest(setup.encryption_info@, origin)
    &&& Some(setup.session_transcript_bytes@) == transcript_bytes(setup.encryption_info@, origin)
    &&& stored_handover(setup.session_transcript_bytes@) == Some(
        (setup.handover.0@, setup.handover.1@),
    )
}

/// Derives the key pair of one request from keying material, and builds the
/// encryption parameters, the handover and the session transcript from it,
/// the nonce and the origin. The same inputs always give the same bytes.
pub fn encryption_setup(ikm: &[u8], nonce: &[u8], origin: &str) -> (r: Result<
    EncryptionSetup,
    InitiateError,
>)
    ensures
        match r {
            Ok(setup) => made_from(setup, ikm@, nonce@, origin@),
            Err(e) => encryption_setup_failure(ikm@, nonce@, origin@) == Some(e.step),
        },
{
    let (private_key, public_key) = derive_keypair(ikm);
    let public = public_key.as_slice();
    let x = vstd::slice::slice_subrange(public, 1, 33);
    let y = vstd::slice::slice_subrange(public, 33, PUBLIC_KEY_LEN);
    let info = encryption_info_value(nonce, x, y);
    let info_bytes = match cbor_to_vec(&info) {
        Ok(bytes) => bytes,
        Err(e) => {
            return Err(
                InitiateError { step: InitiateStep::EncryptionInfo, detail: cbor_error_text(&e) },
            );
        },
    };
    let encryption_info = base64url_encode(info_bytes.as_slice());
    let handover = match Handover::new(encryption_info.clone(), origin.to_owned()) {
        Ok(handover) => handover,
        Err(detail) => {
            return Err(InitiateError { step: InitiateStep::Handover, detail });
        },
    };
    let transcript = SessionTranscriptDCAPI::new(handover);
    let session_transcript_bytes = match transcript.to_bytes() {
        Ok(bytes) => bytes,
        Err(detail) => {
            return Err(InitiateError { step: InitiateStep::SessionTranscript, detail });
        },
    };
    let SessionTranscriptDCAPI(handover) = transcript;
    Ok(EncryptionSetup { encryption_info, private_key, handover, session_transcript_bytes })
}

/// The document type that this exchange asks for.
pub open spec fn doc_type() -> Seq<char> {
    "org.iso.18013.5.1.mDL"@
}

/// The version of the device request.
pub open spec fn request_version() -> Seq<char> {
    "1.1"@
}

/// The label of the reader authentication.
pub open spec fn reader_authentication_label() -> Seq<char> {
    "ReaderAuthenticationAll"@
}

/// The length of the nonce in the encryption parameters.
pub const NONCE_LEN: usize = 16;

/// The requested claims with the intent to retain set on every one of them.
pub open spec fn retain_all(namespaces: Seq<(Seq<char>, Seq<Seq<char>>)>) -> Seq<
    (Seq<char>, Seq<(Seq<char>, bool)>),
> {
    Seq::new(
        namespaces.len(),
        |i: int|
            (
                namespaces[i].0,
                Seq::new(namespaces[i].1.len(), |j: int| (namespaces[i].1[j], true)),
            ),
    )
}

/// Marks every requested claim as one the verifier intends to retain: what
/// the relying party will do with a claim is not known here.
fn retained(request: &DCAPINamespaceRequest) -> (r: Vec<(String, Vec<(String, bool)>)>)
    ensures
        retained_view(r@) == retain_all(request.spec_namespaces()),
        r@.len() > 0,
        forall|i: int| 0 <= i < r@.len() ==> (#[trigger] r@[i]).1@.len() > 0,
{
    let namespaces = request.entries();
    let ghost model = namespaces.deep_view();
    let mut out: Vec<(String, Vec<(String, bool)>)> = Vec::new();
    let mut i: usize = 0;
    while i < namespaces.len()
        invariant
            i <= namespaces.len(),
            model == namespaces.deep_view(),
            out@.len() == i,
            forall|k: int|
                0 <= k < i ==> {
                    &&& (#[trigger] out@[k]).0@ == model[k].0
                    &&& out@[k].1@.len() == model[k].1.len()
                    &&& forall|j: int|
                        0 <= j < model[k].1.len() ==> (#[trigger] out@[k].1@[j]) == (
                            out@[k].1@[j].0,
                            true,
                        ) && out@[k].1@[j].0@ == model[k].1[j]
                },
        decreases namespaces.len() - i,
    {
        let claims = &namespaces[i].1;
        let mut marked: Vec<(String, bool)> = Vec::new();
        let mut j: usize = 0;
        while j < claims.len()
            invariant
                j <= claims.len(),
                i < namespaces.len(),
                claims == &namespaces@[i as int].1,
                model == namespaces.deep_view(),
                marked@.len() == j,
                forall|m: int|
                    0 <= m < j ==> (#[trigger] marked@[m]) == (marked@[m].0, true)
                        && marked@[m].0@ == model[i as int].1[m],
            decreases claims.len() - j,
        {
            marked.push((claims[j].clone(), true));
            j += 1;
        }
        out.push((namespaces[i].0.clone(), marked));
        i += 1;
    }
    assert(retained_view(out@) =~= retain_all(model)) by {
        assert forall|k: int| 0 <= k < out@.len() implies retained_view(out@)[k] == retain_all(
            model,
        )[k] by {
            assert(retained_view(out@)[k].1 =~= retain_all(model)[k].1);
        }
    }
    assert forall|k: int| 0 <= k < out@.len() implies (#[trigger] out@[k]).1@.len() > 0 by {
        assert(model[k].1.len() > 0);
    }
    out
}

/// What a request of this exchange consists of.
pub struct Initiated {
    /// The device request as base64 text.
    pub device_request: Seq<char>,
    /// The encryption parameters as base64 text.
    pub encryption_info: Seq<char>,
    /// The serialized private key kept for the response.
    pub private_key: Seq<u8>,
    /// The session transcript kept for the response.
    pub session_transcript_bytes: Seq<u8>,
}

/// The signed device request for an items request, a handover digest, a
/// signing key and a certificate chain: as base64 text, or the step that
/// fails.
pub open spec fn signed_device_request(
    items_request: Seq<u8>,
    digest: Seq<u8>,
    key_pem: Seq<char>,
    certificates: Seq<Seq<u8>>,
) -> Result<Seq<char>, InitiateStep> {
    match device_request_info_encoding(true, 0) {
        None => Err(InitiateStep::DeviceRequestInfo),
        Some(info) => match reader_authentication_encoding(
            reader_authentication_label(),
            transcript_model(handover_model(protocol_tag(), digest)),
            items_request,
            info,
        ) {
            None => Err(InitiateStep::ReaderAuthentication),
            Some(payload) => if !signing_key_accepted(key_pem) {
                Err(InitiateStep::SigningKey)
            } else {
                match certificate_chain_model(certificates_model(certificates)) {
                    None => Err(InitiateStep::CertificateChain),
                    Some(chain) => match signature_payload_encoding(chain, payload) {
                        None => Err(InitiateStep::Signature),
                        Some(to_sign) => match es256_signature(key_pem, to_sign) {
                            None => Err(InitiateStep::Signature),
                            Some(signature) => match cose_sign1_model(
                                chain,
                                payload,
                                signature,
                            ) {
                                None => Err(InitiateStep::Signature),
                                Some(reader_auth) => match device_request_encoding(
                                    request_version(),
                                    items_request,
                                    reader_auth,
                                    info,
                                ) {
                                    None => Err(InitiateStep::DeviceRequest),
                                    Some(bytes) => Ok(base64url_text(bytes)),
                                },
                            },
                        },
                    },
                }
            },
        },
    }
}

/// What `initiate_with` answers: the request and the state kept for the
/// response, or the step that fails.
pub open spec fn initiate_outcome(
    key_pem: Seq<char>,
    certificates: Seq<Seq<u8>>,
    namespaces: Seq<(Seq<char>, Seq<Seq<char>>)>,
    origin: Seq<char>,
    ikm: Seq<u8>,
    nonce: Seq<u8>,
) -> Result<Initiated, InitiateStep> {
    match items_request_encoding(doc_type(), retain_all(namespaces)) {
        None => Err(InitiateStep::ItemsRequest),
        Some(items_request) => match encryption_setup_failure(ikm, nonce, origin) {
            Some(step) => Err(step),
            None => {
                let encryption_info = encryption_info_text(nonce, derived_keypair(ikm).1).unwrap();
                let digest = handover_digest(encryption_info, origin).unwrap();
                match signed_device_request(items_request, digest, key_pem, certificates) {
                    Err(step) => Err(step),
                    Ok(device_request) => Ok(
                        Initiated {
                            device_request,
                            encryption_info,
                            private_key: derived_keypair(ikm).0,
                            session_transcript_bytes: transcript_encoding(
                                protocol_tag(),
                                digest,
                            ).unwrap(),
                        },
                    ),
                }
            },
        },
    }
}

/// Builds and signs the device request around an items request and the
/// handover of the session.
fn sign_device_request(
    config: &Oid4VpConfig,
    items_request: &Vec<u8>,
    handover: &Handover,
) -> (r: Result<String, InitiateError>)
    requires
        handover.0@ == protocol_tag(),
    ensures
        match r {
            Ok(text) => signed_device_request(
                items_request@,
                handover.1@,
                config.client.key@,
                byte_strings(config.client.x5c@),
            ) == Ok::<Seq<char>, InitiateStep>(text@),
            Err(e) => signed_device_request(
                items_request@,
                handover.1@,
                config.client.key@,
                byte_strings(config.client.x5c@),
            ) == Err::<Seq<char>, InitiateStep>(e.step),
        },
{
    let info = match device_request_info_bytes(true, 0) {
        Ok(bytes) => bytes,
        Err(detail) => {
            return Err(InitiateError { step: InitiateStep::DeviceRequestInfo, detail });
        },
    };
    let transcript = transcript_value(handover.0.as_str(), handover.1.as_slice());
    let payload = match reader_authentication_bytes(
        "ReaderAuthenticationAll",
        &transcript,
        items_request.as_slice(),
        info.as_slice(),
    ) {
        Ok(bytes) => bytes,
        Err(detail) => {
            return Err(InitiateError { step: InitiateStep::ReaderAuthentication, detail });
        },
    };
    match check_signing_key(config.client.key.as_str()) {
        Ok(()) => {},
        Err(detail) => {
            return Err(InitiateError { step: InitiateStep::SigningKey, detail });
        },
    }
    let chain = match certificate_chain_value(certificates_value(&config.client.x5c)) {
        Ok(chain) => chain,
        Err(detail) => {
            return Err(InitiateError { step: InitiateStep::CertificateChain, detail });
        },
    };
    let to_sign = match es256_signature_payload(&chain, payload.as_slice()) {
        Ok(bytes) => bytes,
        Err(detail) => {
            return Err(InitiateError { step: InitiateStep::Signature, detail });
        },
    };
    let signature = match sign_es256(config.client.key.as_str(), to_sign.as_slice()) {
        Ok(bytes) => bytes,
        Err(detail) => {
            return Err(InitiateError { step: InitiateStep::Signature, detail });
        },
    };
    let reader_auth = match es256_sign1_value(&chain, payload.as_slice(), signature.as_slice()) {
        Ok(value) => value,
        Err(detail) => {
            return Err(InitiateError { step: InitiateStep::Signature, detail });
        },
    };
    match device_request_bytes("1.1", items_request.as_slice(), reader_auth, info.as_slice()) {
        Ok(bytes) => Ok(base64url_encode(bytes.as_slice())),
        Err(detail) => Err(InitiateError { step: InitiateStep::DeviceRequest, detail }),
    }
}

/// The items request of a set of requested claims.
fn items_request_for(request: &DCAPINamespaceRequest) -> (r: Result<Vec<u8>, InitiateError>)
    ensures
        match r {
            Ok(bytes) => items_request_encoding(doc_type(), retain_all(request.spec_namespaces()))
                == Some(bytes@),
            Err(e) => e.step == InitiateStep::ItemsRequest && items_request_encoding(
                doc_type(),
                retain_all(request.spec_namespaces()),
            ) is None,
        },
{
    let namespaces = retained(request);
    match items_request_bytes("org.iso.18013.5.1.mDL", &namespaces) {
        Ok(bytes) => Ok(bytes),
        Err(detail) => Err(InitiateError { step: InitiateStep::ItemsRequest, detail }),
    }
}

/// Everything of a request that follows from the items request, the keying
/// material and the nonce.
fn initiate_from(
    config: &Oid4VpConfig,
    request: &DCAPINamespaceRequest,
    items_request: Vec<u8>,
    ikm: &[u8],
    nonce: &[u8],
) -> (r: Result<(DCAPIRequestOrgIsoMDoc, InitiatedSessionState), InitiateError>)
    requires
        items_request_encoding(doc_type(), retain_all(request.spec_namespaces())) == Some(
            items_request@,
        ),
    ensures
        initiated_as(
            r,
            initiate_outcome(
                config.client.key@,
                byte_strings(config.client.x5c@),
                request.spec_namespaces(),
                request.spec_origin(),
                ikm@,
                nonce@,
            ),
        ),
        keeps_committed_transcript(r, request.spec_origin()),
        r is Ok ==> derived_keypair(ikm@).0.len() == PRIVATE_KEY_LEN && derived_keypair(ikm@).1.len()
            == PUBLIC_KEY_LEN,
{
    let setup = match encryption_setup(ikm, nonce, request.origin().as_str()) {
        Ok(setup) => setup,
        Err(e) => {
            return Err(e);
        },
    };
    let device_request = match sign_device_request(config, &items_request, &setup.handover) {
        Ok(text) => text,
        Err(e) => {
            return Err(e);
        },
    };
    let EncryptionSetup { encryption_info, private_key, handover: _, session_transcript_bytes } =
        setup;
    Ok(
        (
            DCAPIRequestOrgIsoMDoc { device_request, encryption_info },
            InitiatedSessionState::new(private_key, session_transcript_bytes),
        ),
    )
}

/// Whether the state of an answer keeps a transcript that reads back as the
/// handover of the returned encryption parameters and the origin, with a
/// digest of 32 bytes, and a private key of 32 bytes: what the response
/// will be opened with and authenticated against is what the request
/// committed to.
pub open spec fn keeps_committed_transcript(
    answer: Result<(DCAPIRequestOrgIsoMDoc, InitiatedSessionState), InitiateError>,
    origin: Seq<char>,
) -> bool {
    answer matches Ok((request, state)) ==> {
        &&& handover_digest(request.encryption_info@, origin) is Some
        &&& handover_digest(request.encryption_info@, origin).unwrap().len() == 32
        &&& stored_handover(state.session_transcript_bytes()@) == Some(
            (protocol_tag(), handover_digest(request.encryption_info@, origin).unwrap()),
        )
        &&& state.private_key()@.len() == PRIVATE_KEY_LEN
    }
}

/// Whether an answer of `initiate_with` is the one that the outcome calls
/// for.
pub open spec fn initiated_as(
    answer: Result<(DCAPIRequestOrgIsoMDoc, InitiatedSessionState), InitiateError>,
    outcome: Result<Initiated, InitiateStep>,
) -> bool {
    match answer {
        Ok((request, state)) => outcome == Ok::<Initiated, InitiateStep>(
            Initiated {
                device_request: request.device_request@,
                encryption_info: request.encryption_info@,
                private_key: state.private_key()@,
                session_transcript_bytes: state.session_transcript_bytes()@,
            },
        ),
        Err(e) => outcome == Err::<Initiated, InitiateStep>(e.step),
    }
}

/// Makes the request of this exchange from given keying material and a given
/// nonce. The request asks for one fixed document type and the requested
/// namespaces; it names every claim as one the verifier intends to retain.
/// The session transcript binds the encryption parameters to the origin; its
/// bytes are what the response will be opened with. The device request is
/// signed with the verifier's key and carries the certificate chain.
pub fn initiate_with(
    config: &Oid4VpConfig,
    request: &DCAPINamespaceRequest,
    ikm: &[u8],
    nonce: &[u8],
) -> (r: Result<(DCAPIRequestOrgIsoMDoc, InitiatedSessionState), InitiateError>)
    ensures
        initiated_as(
            r,
            initiate_outcome(
                config.client.key@,
                byte_strings(config.client.x5c@),
                request.spec_namespaces(),
                request.spec_origin(),
                ikm@,
                nonce@,
            ),
        ),
        keeps_committed_transcript(r, request.spec_origin()),
        r is Ok ==> derived_keypair(ikm@).0.len() == PRIVATE_KEY_LEN && derived_keypair(ikm@).1.len()
            == PUBLIC_KEY_LEN,
{
    let items_request = match items_request_for(request) {
        Ok(bytes) => bytes,
        Err(e) => {
            return Err(e);
        },
    };
    initiate_from(config, request, items_request, ikm, nonce)
}

/// Whether an answer of `initiate_inner` is one that the configuration and
/// the request allow: either the random source failed, or the answer is the
/// one that `initiate_with` gives for some keying material of 32 bytes and
/// some nonce of 16 bytes; where it is a request, the key pair derived from
/// the keying material has a private key of 32 bytes and a public key of 65,
/// so that either coordinate has 32.
pub open spec fn freshly_initiated(
    answer: Result<(DCAPIRequestOrgIsoMDoc, InitiatedSessionState), InitiateError>,
    config: Oid4VpConfig,
    request: DCAPINamespaceRequest,
) -> bool {
    (answer matches Err(e) && e.step == InitiateStep::Randomness) || exists|
        ikm: Seq<u8>,
        nonce: Seq<u8>,
    |
        {
            &&& ikm.len() == PRIVATE_KEY_LEN
            &&& nonce.len() == NONCE_LEN
            &&& initiated_as(
                answer,
                #[trigger] initiate_outcome(
                    config.client.key@,
                    byte_strings(config.client.x5c@),
                    request.spec_namespaces(),
                    request.spec_origin(),
                    ikm,
                    nonce,
                ),
            )
            &&& answer is Ok ==> derived_keypair(ikm).0.len() == PRIVATE_KEY_LEN
                && derived_keypair(ikm).1.len() == PUBLIC_KEY_LEN
        }
}

/// Makes the request of this exchange with a fresh key pair and a fresh
/// nonce, both drawn from the operating system's random source and used for
/// this request only. The answer is the one `initiate_with` gives for the
/// keying material and the nonce that were drawn.
pub fn initiate_inner(config: &Oid4VpConfig, request: &DCAPINamespaceRequest) -> (r: Result<
    (DCAPIRequestOrgIsoMDoc, InitiatedSessionState),
    InitiateError,
>)
    ensures
        freshly_initiated(r, *config, *request),
        keeps_committed_transcript(r, request.spec_origin()),
{
    let mut rng = GetRandomRng;
    let items_request = match items_request_for(request) {
        Ok(bytes) => bytes,
        Err(e) => {
            let ghost ikm = Seq::new(PRIVATE_KEY_LEN as nat, |i: int| 0u8);
            let ghost nonce = Seq::new(NONCE_LEN as nat, |i: int| 0u8);
            assert(initiated_as(
                Err::<(DCAPIRequestOrgIsoMDoc, InitiatedSessionState), InitiateError>(e),
                initiate_outcome(
                    config.client.key@,
                    byte_strings(config.client.x5c@),
                    request.spec_namespaces(),
                    request.spec_origin(),
                    ikm,
                    nonce,
                ),
            ));
            return Err(e);
        },
    };
    let ikm = match rng.random_bytes(PRIVATE_KEY_LEN) {
        Ok(bytes) => bytes,
        Err(_) => {
            return Err(
                InitiateError {
                    step: InitiateStep::Randomness,
                    detail: "no keying material".to_owned(),
                },
            );
        },
    };
    let nonce = match rng.random_bytes(NONCE_LEN) {
        Ok(bytes) => bytes,
        Err(_) => {
            return Err(
                InitiateError { step: InitiateStep::Randomness, detail: "no nonce".to_owned() },
            );
        },
    };
    let r = initiate_from(config, request, items_request, ikm.as_slice(), nonce.as_slice());
    assert(initiated_as(
        r,
        initiate_outcome(
            config.client.key@,
            byte_strings(config.client.x5c@),
            request.spec_namespaces(),
            request.spec_origin(),
            ikm@,
            nonce@,
        ),
    ));
    r
}

/// The encapsulated key and the cipher text of an encrypted response, if the
/// data items have the shape of one: an array of a text tag and a map that
/// holds a byte string under `enc` and one under `cipherText`.
pub open spec fn encrypted_response_parts(model: CborModel) -> Option<(Seq<u8>, Seq<u8>)> {
    match model {
        CborModel::Array(items) => if items.len() == 2 && items[0] is Text {
            match items[1] {
                CborModel::Entries(entries) => match (
                    byte_string_field(entries, "enc"@),
                    byte_string_field(entries, "cipherText"@),
                ) {
                    (Some(enc), Some(cipher_text)) => Some((enc, cipher_text)),
                    _ => None,
                },
                _ => None,
            }
        } else {
            None
        },
        _ => None,
    }
}

/// Takes an encrypted response apart into its encapsulated key and its
/// cipher text.
fn read_encrypted_response(value: &ciborium::Value) -> (r: Option<(Vec<u8>, Vec<u8>)>)
    ensures
        match r {
            Some((enc, cipher_text)) => encrypted_response_parts(cbor_model(*value)) == Some(
                (enc@, cipher_text@),
            ),
            None => encrypted_response_parts(cbor_model(*value)) is None,
        },
{
    let items = match cbor_as_array(value) {
        Some(items) => items,
        None => {
            return None;
        },
    };
    if items.len() != 2 {
        return None;
    }
    assert(cbor_models(items@)[0] == cbor_model(items@[0]));
    assert(cbor_models(items@)[1] == cbor_model(items@[1]));
    if cbor_text_of(&items[0]).is_none() {
        return None;
    }
    let entries = match cbor_as_map(&items[1]) {
        Some(entries) => entries,
        None => {
            return None;
        },
    };
    let enc = match read_byte_string_field(entries, "enc") {
        Some(enc) => enc,
        None => {
            return None;
        },
    };
    match read_byte_string_field(entries, "cipherText") {
        Some(cipher_text) => Some((enc, cipher_text)),
        None => None,
    }
}

/// The step at which opening fails for a given failure of the key
/// agreement: a cipher text that does not open is a decryption failure,
/// anything before that a failure to derive the shared secret.
pub open spec fn opening_step(e: HpkeError) -> SubmitStep {
    match e {
        HpkeError::OpenError => SubmitStep::Decryption,
        HpkeError::MessageLimitReached => SubmitStep::Decryption,
        _ => SubmitStep::Decapsulation,
    }
}

/// What `open_response` answers: the plaintext of the response, or the step
/// at which the response turned out unusable.
pub open spec fn open_response_result(
    private_key: Seq<u8>,
    session_transcript_bytes: Seq<u8>,
    response: Seq<char>,
) -> Result<Seq<u8>, SubmitStep> {
    match base64url_bytes(response) {
        None => Err(SubmitStep::Encoding),
        Some(bytes) => match cbor_decoding(bytes) {
            None => Err(SubmitStep::Structure),
            Some(model) => match encrypted_response_parts(model) {
                None => Err(SubmitStep::Structure),
                Some((enc, cipher_text)) => if encapped_key_rejected(enc) is Some {
                    Err(SubmitStep::EncappedKey)
                } else if private_key_rejected(private_key) is Some {
                    Err(SubmitStep::PrivateKey)
                } else {
                    match opened(
                        private_key,
                        enc,
                        session_transcript_bytes,
                        cipher_text,
                        Seq::<u8>::empty(),
                    ) {
                        Ok(plaintext) => Ok(plaintext),
                        Err(e) => Err(opening_step(e)),
                    }
                },
            },
        },
    }
}

/// Opens the holder's response with the key and the transcript that the
/// session committed to when the request was made. The transcript bytes are
/// used as they were stored; they are never derived again.
pub fn open_response(state: &InitiatedSessionState, dc_response: &DCAPIResponseData) -> (r: Result<
    Vec<u8>,
    SubmitError,
>)
    ensures
        match r {
            Ok(plaintext) => open_response_result(
                state.private_key()@,
                state.session_transcript_bytes()@,
                dc_response.response()@,
            ) == Ok::<Seq<u8>, SubmitStep>(plaintext@),
            Err(e) => open_response_result(
                state.private_key()@,
                state.session_transcript_bytes()@,
                dc_response.response()@,
            ) == Err::<Seq<u8>, SubmitStep>(e.step),
        },
{
    let response_bytes = match base64url_decode(dc_response.response().as_str()) {
        Ok(bytes) => bytes,
        Err(e) => {
            return Err(SubmitError { step: SubmitStep::Encoding, detail: decode_error_text(&e) });
        },
    };
    let value = match cbor_from_slice(response_bytes.as_slice()) {
        Ok(value) => value,
        Err(e) => {
            return Err(SubmitError { step: SubmitStep::Structure, detail: cbor_error_text(&e) });
        },
    };
    let (enc, cipher_text) = match read_encrypted_response(&value) {
        Some(parts) => parts,
        None => {
            return Err(
                SubmitError {
                    step: SubmitStep::Structure,
                    detail: "expected a tag and a map with enc and cipherText".to_owned(),
                },
            );
        },
    };
    match check_encapped_key(enc.as_slice()) {
        Ok(()) => {},
        Err(e) => {
            return Err(
                SubmitError { step: SubmitStep::EncappedKey, detail: hpke_error_text(&e) },
            );
        },
    }
    match check_private_key(state.private_key().as_slice()) {
        Ok(()) => {},
        Err(e) => {
            return Err(SubmitError { step: SubmitStep::PrivateKey, detail: hpke_error_text(&e) });
        },
    }
    let aad: Vec<u8> = Vec::new();
    match open(
        state.private_key().as_slice(),
        enc.as_slice(),
        state.session_transcript_bytes().as_slice(),
        cipher_text.as_slice(),
        aad.as_slice(),
    ) {
        Ok(plaintext) => Ok(plaintext),
        Err(e) => {
            let step = match e {
                HpkeError::OpenError => SubmitStep::Decryption,
                HpkeError::MessageLimitReached => SubmitStep::Decryption,
                _ => SubmitStep::Decapsulation,
            };
            Err(SubmitError { step, detail: hpke_error_text(&e) })
        },
    }
}

/// A response that has been opened and read, with the session transcript
/// that it is to be authenticated against.
pub struct Submission {
    pub session_transcript: SessionTranscriptDCAPI<Handover>,
    pub parsed: Parsed,
}

/// The step at which `submit_dc_response_inner` turns a response down, or
/// nothing where it takes the response in.
pub open spec fn submit_failure(
    private_key: Seq<u8>,
    session_transcript_bytes: Seq<u8>,
    response: Seq<char>,
) -> Option<SubmitStep> {
    match open_response_result(private_key, session_transcript_bytes, response) {
        Err(step) => Some(step),
        Ok(plaintext) => if decoded_device_response(plaintext) is None {
            Some(SubmitStep::DeviceResponse)
        } else if stored_handover(session_transcript_bytes) is None {
            Some(SubmitStep::StoredTranscript)
        } else {
            None
        },
    }
}

/// Whether an answer of `submit_dc_response_inner` is the one that the
/// kept state and the response call for.
pub open spec fn taken_in(
    answer: Result<Submission, SubmitError>,
    state: InitiatedSessionState,
    dc_response: DCAPIResponseData,
) -> bool {
    let failure = submit_failure(
        state.private_key()@,
        state.session_transcript_bytes()@,
        dc_response.response()@,
    );
    match answer {
        Ok(submission) => {
            let opened = open_response_result(
                state.private_key()@,
                state.session_transcript_bytes()@,
                dc_response.response()@,
            );
            &&& failure is None
            &&& stored_handover(state.session_transcript_bytes()@) == Some(
                (submission.session_transcript.0.0@, submission.session_transcript.0.1@),
            )
            &&& parsed_as(submission.parsed, decoded_device_response(opened->Ok_0).unwrap())
        },
        Err(e) => failure == Some(e.step),
    }
}

/// Takes in the holder's response to the request of this exchange: opens it
/// with the key and the transcript bytes that the session kept, reads the
/// device response, rebuilds the session transcript from the kept bytes, and
/// parses the response. A response that cannot be opened or read is the
/// fault of what was submitted; the session is not touched.
pub fn submit_dc_response_inner(state: &InitiatedSessionState, dc_response: &DCAPIResponseData) -> (r:
    Result<Submission, SubmitError>)
    ensures
        taken_in(r, *state, *dc_response),
{
    let plaintext = match open_response(state, dc_response) {
        Ok(plaintext) => plaintext,
        Err(e) => {
            return Err(e);
        },
    };
    let device_response = match decode_device_response(plaintext.as_slice()) {
        Ok(response) => response,
        Err(detail) => {
            return Err(SubmitError { step: SubmitStep::DeviceResponse, detail });
        },
    };
    let (tag, digest) = match read_transcript(state.session_transcript_bytes().as_slice()) {
        Ok(parts) => parts,
        Err(detail) => {
            return Err(SubmitError { step: SubmitStep::StoredTranscript, detail });
        },
    };
    let session_transcript = SessionTranscriptDCAPI::new(Handover(tag, digest));
    let parsed = parse_response(&device_response);
    Ok(Submission { session_transcript, parsed })
}

/// The session transcript is determined by the keying material, the nonce
/// and the origin: whenever a request is made again from the same three, the
/// encryption parameters, the key and the transcript are the same bytes.
pub proof fn lemma_setup_is_determined(
    ikm: Seq<u8>,
    nonce: Seq<u8>,
    origin: Seq<char>,
    first: EncryptionSetup,
    second: EncryptionSetup,
)
    requires
        made_from(first, ikm, nonce, origin),
        made_from(second, ikm, nonce, origin),
    ensures
        first.encryption_info@ == second.encryption_info@,
        first.private_key@ == second.private_key@,
        first.handover.0@ == second.handover.0@,
        first.handover.1@ == second.handover.1@,
        first.session_transcript_bytes@ == second.session_transcript_bytes@,
{
}

/// The transcript that is stored at initiation is the one that the response
/// is opened with and authenticated against: the stored bytes read back as
/// the handover they were made from.
pub proof fn lemma_stored_transcript_is_the_committed_one(
    ikm: Seq<u8>,
    nonce: Seq<u8>,
    origin: Seq<char>,
    setup: EncryptionSetup,
)
    requires
        made_from(setup, ikm, nonce, origin),
    ensures
        stored_handover(setup.session_transcript_bytes@) == Some(
            (setup.handover.0@, setup.handover.1@),
        ),
{
}

} // verus!
