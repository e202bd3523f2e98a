//! The OpenID4VP exchange.

use crate::cbor::{
    cbor_array, cbor_encoding, cbor_error_text, cbor_model, cbor_models, cbor_text, cbor_to_vec,
    CborModel,
};
use crate::encoding::{
    base64url_bytes, base64url_decode, base64url_encode, base64url_text, decode_error_text,
    sha256, sha256_digest,
};
use crate::error::{InitiateError, InitiateStep, SubmitError, SubmitStep};
use crate::identifiers::{parse_uuid_text, uuid_canonical_text, uuid_error_text};
use crate::mdoc::{
    decode_device_response, decoded_device_response, parse_response, parsed_as, Parsed,
};
use crate::rng::GetRandomRng;
use crate::transcript::{stored_handover, transcript_encoding, transcript_to_bytes};
use crate::types::DCAPINamespaceRequest;
use vstd::prelude::*;

verus! {

/// What a session keeps between initiating this exchange and receiving the
/// holder's response: the committed inputs of the handover.
#[derive(Clone, Debug)]
pub struct InitiatedSessionState {
    oid4vp_session_id: String,
    origin: String,
    nonce: String,
}

impl InitiatedSessionState {
    /// The state that holds the given session id, origin and nonce.
    pub fn new(oid4vp_session_id: String, origin: String, nonce: String) -> (r: Self)
        ensures
            r.oid4vp_session_id()@ == oid4vp_session_id@,
            r.origin()@ == origin@,
            r.nonce()@ == nonce@,
    {
        InitiatedSessionState { oid4vp_session_id, origin, nonce }
    }

    /// The id of the session kept by the authorization-request builder.
    #[verifier::when_used_as_spec(spec_oid4vp_session_id)]
    pub fn oid4vp_session_id(&self) -> (r: &String)
        ensures
            r == self.spec_oid4vp_session_id(),
    {
        &self.oid4vp_session_id
    }

    pub closed spec fn spec_oid4vp_session_id(&self) -> &String {
        &self.oid4vp_session_id
    }

    /// The origin the request was made for.
    #[verifier::when_used_as_spec(spec_origin)]
    pub fn origin(&self) -> (r: &String)
        ensures
            r == self.spec_origin(),
    {
        &self.origin
    }

    pub closed spec fn spec_origin(&self) -> &String {
        &self.origin
    }

    /// The nonce of the request, as base64 text.
    #[verifier::when_used_as_spec(spec_nonce)]
    pub fn nonce(&self) -> (r: &String)
        ensures
            r == self.spec_nonce(),
    {
        &self.nonce
    }

    pub closed spec fn spec_nonce(&self) -> &String {
        &self.nonce
    }
}

/// The committed inputs of the handover: origin, client id and nonce.
#[derive(Clone, Debug)]
pub struct HandoverInfo(pub String, pub String, pub String);

/// The handover: a protocol tag and the digest that binds the exchange to
/// its origin, client and nonce.
#[derive(Clone, Debug)]
pub struct Handover(pub String, pub Vec<u8>);

/// The session transcript: two empty places for the device engagement and
/// the reader key, which this exchange does not use, and the handover.
#[derive(Clone, Debug)]
pub struct SessionTranscriptDCAPI<H>(pub H);

/// The data items of the handover inputs: an array of three text strings.
pub open spec fn handover_info_model(
    origin: Seq<char>,
    client_id: Seq<char>,
    nonce: Seq<char>,
) -> CborModel {
    CborModel::Array(
        seq![CborModel::Text(origin), CborModel::Text(client_id), CborModel::Text(nonce)],
    )
}

/// The digest of the handover: SHA-256 over the encoded handover inputs.
pub open spec fn handover_digest(
    origin: Seq<char>,
    client_id: Seq<char>,
    nonce: Seq<char>,
) -> Option<Seq<u8>> {
    match cbor_encoding(handover_info_model(origin, client_id, nonce)) {
        Some(bytes) => Some(sha256_digest(bytes)),
        None => None,
    }
}

/// The tag of this exchange's handover.
pub open spec fn handover_tag() -> Seq<char> {
    "OpenID4VPDCAPIHandover"@
}

/// The bytes of the session transcript for the given committed inputs.
pub open spec fn transcript_bytes(
    origin: Seq<char>,
    client_id: Seq<char>,
    nonce: Seq<char>,
) -> Option<Seq<u8>> {
    match handover_digest(origin, client_id, nonce) {
        Some(digest) => transcript_encoding(handover_tag(), digest),
        None => None,
    }
}

impl HandoverInfo {
    /// The three inputs as an array of text strings.
    pub(crate) fn to_cbor(&self) -> (r: ciborium::Value)
        ensures
            cbor_model(r) == handover_info_model(self.0@, self.1@, self.2@),
    {
        let mut items: Vec<ciborium::Value> = Vec::new();
        items.push(cbor_text(self.0.as_str()));
        items.push(cbor_text(self.1.as_str()));
        items.push(cbor_text(self.2.as_str()));
        assert(cbor_models(items@) =~= seq![
            CborModel::Text(self.0@),
            CborModel::Text(self.1@),
            CborModel::Text(self.2@),
        ]);
        cbor_array(items)
    }
}

impl Handover {
    /// The handover for an origin, a client id and a nonce: the tag of this
    /// exchange and the SHA-256 digest of the three, encoded as an array of
    /// text strings.
    pub fn new(origin: String, client_id: String, nonce: String) -> (r: Result<Handover, String>)
        ensures
            match r {
                Ok(handover) => {
                    &&& handover.0@ == handover_tag()
                    &&& handover_digest(origin@, client_id@, nonce@) == Some(handover.1@)
                    &&& handover.1@.len() == 32
                },
                Err(_) => handover_digest(origin@, client_id@, nonce@) is None,
            },
    {
        let info = HandoverInfo(origin, client_id, nonce);
        let value = info.to_cbor();
        match cbor_to_vec(&value) {
            Ok(bytes) => {
                let digest = sha256(bytes.as_slice());
                Ok(Handover("OpenID4VPDCAPIHandover".to_owned(), digest))
            },
            Err(e) => Err(cbor_error_text(&e)),
        }
    }
}

impl<H> SessionTranscriptDCAPI<H> {
    /// The transcript around a handover.
    pub fn new(handover: H) -> (r: Self)
        ensures
            r.0 == handover,
    {
        SessionTranscriptDCAPI(handover)
    }
}

impl SessionTranscriptDCAPI<Handover> {
    /// The canonical bytes of the transcript. Reading them back gives the
    /// handover of this transcript.
    pub fn to_bytes(&self) -> (r: Result<Vec<u8>, String>)
        ensures
            match r {
                Ok(bytes) => transcript_encoding(self.0.0@, self.0.1@) == Some(bytes@)
                    && stored_handover(bytes@) == Some((self.0.0@, self.0.1@)),
                Err(_) => transcript_encoding(self.0.0@, self.0.1@) is None,
            },
    {
        transcript_to_bytes(self.0.0.as_str(), self.0.1.as_slice())
    }
}

/// Rebuilds the session transcript of an initiated session from its
/// committed inputs and the verifier's client id.
pub fn session_transcript(state: &InitiatedSessionState, client_id: &str) -> (r: Result<
    SessionTranscriptDCAPI<Handover>,
    SubmitError,
>)
    ensures
        match r {
            Ok(transcript) => {
                &&& transcript.0.0@ == handover_tag()
                &&& handover_digest(state.origin()@, client_id@, state.nonce()@) == Some(
                    transcript.0.1@,
                )
                &&& transcript.0.1@.len() == 32
            },
            Err(e) => {
                &&& e.step == SubmitStep::Handover
                &&& handover_digest(state.origin()@, client_id@, state.nonce()@) is None
            },
        },
{
    match Handover::new(state.origin().clone(), client_id.to_owned(), state.nonce().clone()) {
        Ok(handover) => Ok(SessionTranscriptDCAPI::new(handover)),
        Err(detail) => Err(SubmitError { step: SubmitStep::Handover, detail }),
    }
}

/// The request as the browser gets it: a signed request object.
#[derive(Clone, Debug)]
pub struct InitiateResponse {
    pub request_jwt: String,
}

/// The holder's response as submitted: one token per credential query, and
/// at least one.
#[derive(Debug)]
pub struct DCAPIResponseData {
    vp_token: Vec<(String, String)>,
}

impl DCAPIResponseData {
    #[verifier::type_invariant]
    spec fn holds_a_token(self) -> bool {
        self.vp_token@.len() > 0
    }

    /// The response that holds the given tokens, if there is at least one.
    pub fn new(vp_token: Vec<(String, String)>) -> (r: Option<Self>)
        ensures
            match r {
                Some(data) => vp_token@.len() > 0 && data.vp_token() == vp_token,
                None => vp_token@.len() == 0,
            },
    {
        if vp_token.len() == 0 {
            None
        } else {
            Some(DCAPIResponseData { vp_token })
        }
    }

    /// The submitted tokens by the id of their credential query.
    #[verifier::when_used_as_spec(spec_vp_token)]
    pub fn vp_token(&self) -> (r: &Vec<(String, String)>)
        ensures
            r == self.spec_vp_token(),
            r@.len() > 0,
    {
        proof {
            use_type_invariant(self);
        }
        &self.vp_token
    }

    pub closed spec fn spec_vp_token(&self) -> &Vec<(String, String)> {
        &self.vp_token
    }
}

/// One claim asked of the credential: the path that leads to it, and
/// whether the verifier intends to retain it.
#[derive(Clone, Debug)]
pub struct ClaimsQuery {
    pub path: Vec<String>,
    pub intent_to_retain: bool,
}

/// What is handed to the builder of authorization requests.
#[derive(Clone, Debug)]
pub struct AuthorizationRequest {
    /// The id of the one credential query.
    pub credential_id: String,
    /// The document type asked for.
    pub doctype: String,
    /// The one credential is asked for in the mdoc format.
    pub claims: Vec<ClaimsQuery>,
    /// What the credential is asked for, for the holder to read.
    pub purpose: String,
    /// The signature algorithms the verifier accepts for mdoc credentials.
    pub algorithms: Vec<String>,
    /// The nonce of the request, as base64 text.
    pub nonce: String,
    /// The origins from which the response may come: the one that asks.
    pub expected_origins: Vec<String>,
    /// The id of the session that the builder is to keep, in canonical form.
    pub session_id: String,
}

/// The id of the one credential query of a request.
pub open spec fn credential_id() -> Seq<char> {
    "0"@
}

/// The document type that this exchange asks for.
pub open spec fn doc_type() -> Seq<char> {
    "org.iso.18013.5.1.mDL"@
}

/// What the holder is told the credential is asked for.
pub open spec fn purpose() -> Seq<char> {
    "Authorize to the government using your mobile drivers license"@
}

/// The signature algorithm accepted for mdoc credentials.
pub open spec fn accepted_algorithm() -> Seq<char> {
    "ES256"@
}

/// The length of the nonce before it is made text.
pub const NONCE_LEN: usize = 16;

/// The paths to the claims of one namespace, in order.
pub open spec fn paths_within(namespace: Seq<char>, claims: Seq<Seq<char>>) -> Seq<
    Seq<Seq<char>>,
> {
    Seq::new(claims.len(), |j: int| seq![namespace, claims[j]])
}

/// The paths to all requested claims: namespace by namespace, claim by
/// claim, in the order of the request.
pub open spec fn claim_paths(namespaces: Seq<(Seq<char>, Seq<Seq<char>>)>) -> Seq<Seq<Seq<char>>>
    decreases namespaces.len(),
{
    if namespaces.len() == 0 {
        Seq::empty()
    } else {
        claim_paths(namespaces.drop_last()) + paths_within(
            namespaces.last().0,
            namespaces.last().1,
        )
    }
}

/// The paths of a list of claims queries.
pub open spec fn query_paths(queries: Seq<ClaimsQuery>) -> Seq<Seq<Seq<char>>> {
    Seq::new(queries.len(), |k: int| queries[k].path.deep_view())
}

/// One query per requested claim, each with the intent to retain: what the
/// relying party will do with a claim is not known here.
fn claims_queries(request: &DCAPINamespaceRequest) -> (r: Vec<ClaimsQuery>)
    ensures
        query_paths(r@) == claim_paths(request.spec_namespaces()),
        forall|k: int| 0 <= k < r@.len() ==> (#[trigger] r@[k]).intent_to_retain,
{
    let namespaces = request.entries();
    let ghost model = namespaces.deep_view();
    let mut out: Vec<ClaimsQuery> = Vec::new();
    let mut i: usize = 0;
    assert(model.take(0) =~= Seq::empty());
    while i < namespaces.len()
        invariant
            i <= namespaces.len(),
            model == namespaces.deep_view(),
            query_paths(out@) =~= claim_paths(model.take(i as int)),
            forall|k: int| 0 <= k < out@.len() ==> (#[trigger] out@[k]).intent_to_retain,
        decreases namespaces.len() - i,
    {
        let namespace = &namespaces[i].0;
        let claims = &namespaces[i].1;
        let ghost before = out@;
        let mut j: usize = 0;
        while j < claims.len()
            invariant
                j <= claims.len(),
                i < namespaces.len(),
                namespace == &namespaces@[i as int].0,
                claims == &namespaces@[i as int].1,
                model == namespaces.deep_view(),
                query_paths(out@) =~= query_paths(before) + paths_within(
                    model[i as int].0,
                    model[i as int].1.take(j as int),
                ),
                forall|k: int| 0 <= k < out@.len() ==> (#[trigger] out@[k]).intent_to_retain,
            decreases claims.len() - j,
        {
            let mut path: Vec<String> = Vec::new();
            path.push(namespace.clone());
            path.push(claims[j].clone());
            assert(path.deep_view() =~= seq![model[i as int].0, model[i as int].1[j as int]]);
            let ghost old_out = out@;
            let ghost path_view = path.deep_view();
            out.push(ClaimsQuery { path, intent_to_retain: true });
            proof {
                let claims_model = model[i as int].1;
                let done = paths_within(model[i as int].0, claims_model.take(j as int));
                let next = paths_within(model[i as int].0, claims_model.take(j as int + 1));
                assert(out@[old_out.len() as int].path.deep_view() == path_view);
                assert(query_paths(out@) =~= query_paths(old_out).push(path_view)) by {
                    assert forall|k: int| 0 <= k < out@.len() implies query_paths(out@)[k]
                        == query_paths(old_out).push(path_view)[k] by {
                        if k < old_out.len() {
                            assert(out@[k] == old_out[k]);
                        }
                    }
                }
                assert(next =~= done.push(path_view)) by {
                    assert(next.len() == done.len() + 1);
                    assert forall|k: int| 0 <= k < next.len() implies next[k] == done.push(
                        path_view,
                    )[k] by {
                        if k < done.len() {
                            assert(claims_model.take(j as int + 1)[k] == claims_model.take(
                                j as int,
                            )[k]);
                        } else {
                            assert(claims_model.take(j as int + 1)[k] == claims_model[j as int]);
                        }
                    }
                }
                assert(query_paths(out@) =~= query_paths(before) + next);
            }
            j += 1;
        }
        proof {
            assert(model[i as int].1.take(j as int) =~= model[i as int].1);
            assert(model.take(i as int + 1).drop_last() =~= model.take(i as int));
            assert(model.take(i as int + 1).last() == model[i as int]);
        }
        i += 1;
    }
    assert(model.take(i as int) =~= model);
    out
}

/// What `authorization_request_with` hands to the builder for a set of
/// requested claims, a session id in canonical form and a nonce.
pub open spec fn is_request_for(
    plan: AuthorizationRequest,
    namespaces: Seq<(Seq<char>, Seq<Seq<char>>)>,
    origin: Seq<char>,
    session_id: Seq<char>,
    nonce: Seq<u8>,
) -> bool {
    &&& plan.credential_id@ == credential_id()
    &&& plan.doctype@ == doc_type()
    &&& query_paths(plan.claims@) == claim_paths(namespaces)
    &&& forall|k: int| 0 <= k < plan.claims@.len() ==> (#[trigger] plan.claims@[k]).intent_to_retain
    &&& plan.purpose@ == purpose()
    &&& plan.algorithms.deep_view() == seq![accepted_algorithm()]
    &&& plan.nonce@ == base64url_text(nonce)
    &&& plan.expected_origins.deep_view() == seq![origin]
    &&& plan.session_id@ == session_id
}

/// Plans the authorization request for a set of requested claims with a
/// given nonce: one credential query for the fixed document type with one
/// claims path per requested claim, each with the intent to retain; the
/// purpose; the accepted algorithm; the nonce as base64 text; and the one
/// origin from which the response may come. The session id must be a UUID.
pub fn authorization_request_with(
    request: &DCAPINamespaceRequest,
    session_id: &str,
    nonce: &[u8],
) -> (r: Result<AuthorizationRequest, InitiateError>)
    ensures
        match r {
            Ok(plan) => uuid_canonical_text(session_id@) is Some && is_request_for(
                plan,
                request.spec_namespaces(),
                request.spec_origin(),
                uuid_canonical_text(session_id@).unwrap(),
                nonce@,
            ),
            Err(e) => e.step == InitiateStep::SessionId && uuid_canonical_text(session_id@)
                is None,
        },
{
    let claims = claims_queries(request);
    let nonce_text = base64url_encode(nonce);
    let canonical = match parse_uuid_text(session_id) {
        Ok(canonical) => canonical,
        Err(e) => {
            return Err(
                InitiateError { step: InitiateStep::SessionId, detail: uuid_error_text(&e) },
            );
        },
    };
    let mut algorithms: Vec<String> = Vec::new();
    algorithms.push("ES256".to_owned());
    let mut expected_origins: Vec<String> = Vec::new();
    expected_origins.push(request.origin().clone());
    assert(algorithms.deep_view() =~= seq![accepted_algorithm()]);
    assert(expected_origins.deep_view() =~= seq![request.spec_origin()]);
    Ok(
        AuthorizationRequest {
            credential_id: "0".to_owned(),
            doctype: "org.iso.18013.5.1.mDL".to_owned(),
            claims,
            purpose: "Authorize to the government using your mobile drivers license".to_owned(),
            algorithms,
            nonce: nonce_text,
            expected_origins,
            session_id: canonical,
        },
    )
}

/// Whether an answer of `authorization_request` is one that the request and
/// the session id allow: the plan that `authorization_request_with` makes
/// for some nonce of the right length, or a failure of the random source or
/// of the session id.
pub open spec fn freshly_planned(
    answer: Result<AuthorizationRequest, InitiateError>,
    request: DCAPINamespaceRequest,
    session_id: Seq<char>,
) -> bool {
    match answer {
        Ok(plan) => uuid_canonical_text(session_id) is Some && exists|nonce: Seq<u8>|
            nonce.len() == NONCE_LEN && #[trigger] is_request_for(
                plan,
                request.spec_namespaces(),
                request.spec_origin(),
                uuid_canonical_text(session_id).unwrap(),
                nonce,
            ),
        Err(e) => e.step == InitiateStep::Randomness || (e.step == InitiateStep::SessionId
            && uuid_canonical_text(session_id) is None),
    }
}

/// Plans the authorization request for a set of requested claims with a
/// fresh nonce, drawn from the operating system's random source and used
/// for this request only.
pub fn authorization_request(request: &DCAPINamespaceRequest, session_id: &str) -> (r: Result<
    AuthorizationRequest,
    InitiateError,
>)
    ensures
        freshly_planned(r, *request, session_id@),
{
    let mut rng = GetRandomRng;
    let nonce = match rng.random_bytes(NONCE_LEN) {
        Ok(bytes) => bytes,
        Err(_) => {
            return Err(
                InitiateError { step: InitiateStep::Randomness, detail: "no nonce".to_owned() },
            );
        },
    };
    let r = authorization_request_with(request, session_id, nonce.as_slice());
    proof {
        if r is Ok {
            assert(is_request_for(
                r->Ok_0,
                request.spec_namespaces(),
                request.spec_origin(),
                uuid_canonical_text(session_id@).unwrap(),
                nonce@,
            ));
        }
    }
    r
}

/// Completes the initiation once the builder has made the request object:
/// the request goes to the browser, and the session keeps the builder's
/// session id, the origin and the nonce, which are the committed inputs of
/// the handover.
pub fn initiate_inner(
    plan: AuthorizationRequest,
    origin: String,
    oid4vp_session_id: String,
    request_jwt: String,
) -> (r: (InitiateResponse, InitiatedSessionState))
    ensures
        r.0.request_jwt == request_jwt,
        r.1.oid4vp_session_id()@ == oid4vp_session_id@,
        r.1.origin()@ == origin@,
        r.1.nonce()@ == plan.nonce@,
{
    let AuthorizationRequest { nonce, .. } = plan;
    (
        InitiateResponse { request_jwt },
        InitiatedSessionState::new(oid4vp_session_id, origin, nonce),
    )
}

/// A response that has been read, with the session transcript that it is to
/// be authenticated against.
pub struct Submission {
    pub session_transcript: SessionTranscriptDCAPI<Handover>,
    pub parsed: Parsed,
}

/// The step at which `submit_dc_response_inner` turns a response down, or
/// nothing where it takes the response in.
pub open spec fn submit_failure(
    origin: Seq<char>,
    client_id: Seq<char>,
    nonce: Seq<char>,
    token: Seq<char>,
) -> Option<SubmitStep> {
    match base64url_bytes(token) {
        None => Some(SubmitStep::Encoding),
        Some(bytes) => if decoded_device_response(bytes) is None {
            Some(SubmitStep::DeviceResponse)
        } else if handover_digest(origin, client_id, nonce) is None {
            Some(SubmitStep::Handover)
        } else {
            None
        },
    }
}

/// Whether an answer of `submit_dc_response_inner` is the one that the
/// kept state, the client id and the response call for.
pub open spec fn taken_in(
    answer: Result<Submission, SubmitError>,
    state: InitiatedSessionState,
    client_id: Seq<char>,
    dc_response: DCAPIResponseData,
) -> bool {
    let token = dc_response.vp_token()@[0].1@;
    let failure = submit_failure(state.origin()@, client_id, state.nonce()@, token);
    match answer {
        Ok(submission) => {
            &&& failure is None
            &&& submission.session_transcript.0.0@ == handover_tag()
            &&& Some(submission.session_transcript.0.1@) == handover_digest(
                state.origin()@,
                client_id,
                state.nonce()@,
            )
            &&& submission.session_transcript.0.1@.len() == 32
            &&& parsed_as(
                submission.parsed,
                decoded_device_response(base64url_bytes(token).unwrap()).unwrap(),
            )
        },
        Err(e) => failure == Some(e.step),
    }
}

/// Takes in the holder's response to the request of this exchange: reads
/// the device response from the token of the one credential query, computes
/// the handover again from the origin and the nonce that the session kept
/// and the verifier's client id, and parses the response. Where the
/// response does not parse, the parsing error is reported together with the
/// claims that can still be read. Of the tokens the first is taken, since
/// one credential was asked for.
pub fn submit_dc_response_inner(
    state: &InitiatedSessionState,
    client_id: &str,
    dc_response: &DCAPIResponseData,
) -> (r: Result<Submission, SubmitError>)
    ensures
        taken_in(r, *state, client_id@, *dc_response),
{
    let first_vp_token = &dc_response.vp_token()[0].1;
    let decoded_vp_token = match base64url_decode(first_vp_token.as_str()) {
        Ok(bytes) => bytes,
        Err(e) => {
            return Err(SubmitError { step: SubmitStep::Encoding, detail: decode_error_text(&e) });
        },
    };
    let device_response = match decode_device_response(decoded_vp_token.as_slice()) {
        Ok(response) => response,
        Err(detail) => {
            return Err(SubmitError { step: SubmitStep::DeviceResponse, detail });
        },
    };
    let session_transcript = match session_transcript(state, client_id) {
        Ok(transcript) => transcript,
        Err(e) => {
            return Err(e);
        },
    };
    let parsed = parse_response(&device_response);
    Ok(Submission { session_transcript, parsed })
}

/// The bytes of the session transcript that an initiated session and a
/// client id commit to.
pub fn session_transcript_bytes(state: &InitiatedSessionState, client_id: &str) -> (r: Result<
    Vec<u8>,
    SubmitError,
>)
    ensures
        match r {
            Ok(bytes) => transcript_bytes(state.origin()@, client_id@, state.nonce()@) == Some(
                bytes@,
            ),
            Err(e) => transcript_bytes(state.origin()@, client_id@, state.nonce()@) is None,
        },
{
    let transcript = match session_transcript(state, client_id) {
        Ok(transcript) => transcript,
        Err(e) => {
            return Err(e);
        },
    };
    match transcript.to_bytes() {
        Ok(bytes) => Ok(bytes),
        Err(detail) => Err(SubmitError { step: SubmitStep::Handover, detail }),
    }
}

/// The session transcript is determined by the origin, the client id and
/// the nonce: whenever it is built again from the same three, it is the same
/// bytes.
pub proof fn lemma_transcript_is_determined(
    origin: Seq<char>,
    client_id: Seq<char>,
    nonce: Seq<char>,
    first: Seq<u8>,
    second: Seq<u8>,
)
    requires
        transcript_bytes(origin, client_id, nonce) == Some(first),
        transcript_bytes(origin, client_id, nonce) == Some(second),
    ensures
        first == second,
{
}

} // verus!
