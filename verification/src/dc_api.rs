//! The decisions of the two operations on a session that the browser drives:
//! which requests to offer, and which exchange takes a response in.

use crate::annex_c;
use crate::annex_d;
use crate::config::Oid4VpConfig;
use crate::error::{InitiateError, SubmitError};
use crate::session::{Session, SessionError, SessionState};
use crate::types::{
    DCAPINamespaceRequest, DCAPIRequest, DCAPIRequestOpenId4VP, DCAPIRequestOrgIsoMDoc,
    DCAPIRequests, DCAPIResponse,
};
use vstd::prelude::*;

verus! {

/// Why a session was not initiated.
#[derive(Debug)]
pub enum InitiateRejection {
    /// The session has been initiated before.
    InvalidState,
    /// A request could not be made.
    Failed(InitiateError),
}

/// What has been prepared for a session that is being initiated: the
/// request of the direct exchange with its continuation state, and what the
/// builder of authorization requests is to be given.
pub struct Initiation {
    pub annex_c: (DCAPIRequestOrgIsoMDoc, annex_c::InitiatedSessionState),
    pub authorization_request: annex_d::AuthorizationRequest,
    /// The origin that both requests were made for.
    pub origin: String,
}

/// Why a response was not taken in.
#[derive(Debug)]
pub enum SubmitRejection {
    /// The session is not waiting for a response.
    InvalidState,
    /// The response is unusable.
    Unusable(SubmitError),
}

/// A response that one of the two exchanges has taken in.
pub enum Submission {
    OrgIsoMDoc(annex_c::Submission),
    OpenId4VP(annex_d::Submission),
}

/// The requests offered for a session: always the one of the OpenID4VP
/// exchange, followed by the one of the direct exchange where it is to be
/// offered as well.
pub fn assemble_requests(
    annex_d: annex_d::InitiateResponse,
    annex_c: DCAPIRequestOrgIsoMDoc,
    offer_annex_c: bool,
) -> (r: DCAPIRequests)
    ensures
        r.requests@ == (if offer_annex_c {
            seq![
                DCAPIRequest::OpenId4VP {
                    data: DCAPIRequestOpenId4VP { request: annex_d.request_jwt },
                },
                DCAPIRequest::OrgIsoMDoc { data: annex_c },
            ]
        } else {
            seq![
                DCAPIRequest::OpenId4VP {
                    data: DCAPIRequestOpenId4VP { request: annex_d.request_jwt },
                },
            ]
        }),
{
    let mut requests: Vec<DCAPIRequest> = Vec::new();
    requests.push(
        DCAPIRequest::OpenId4VP { data: DCAPIRequestOpenId4VP { request: annex_d.request_jwt } },
    );
    if offer_annex_c {
        requests.push(DCAPIRequest::OrgIsoMDoc { data: annex_c });
    }
    DCAPIRequests { requests }
}

/// Whether an answer of `submit_response` is the one that the session and
/// the response call for: a session that is not initiated refuses, and an
/// initiated one hands the response to the exchange it is tagged for, with
/// the continuation state kept for that exchange.
pub open spec fn submitted_as(
    answer: Result<Submission, SubmitRejection>,
    session: Session,
    client_id: Seq<char>,
    response: DCAPIResponse,
) -> bool {
    match session.state {
        SessionState::Initiated { annex_c, annex_d } => match response {
            DCAPIResponse::OrgIsoMDoc { data } => match answer {
                Ok(Submission::OrgIsoMDoc(submission)) => annex_c::taken_in(
                    Ok(submission),
                    annex_c,
                    data,
                ),
                Err(SubmitRejection::Unusable(e)) => annex_c::taken_in(Err(e), annex_c, data),
                _ => false,
            },
            DCAPIResponse::OpenId4VP { data } => match answer {
                Ok(Submission::OpenId4VP(submission)) => annex_d::taken_in(
                    Ok(submission),
                    annex_d,
                    client_id,
                    data,
                ),
                Err(SubmitRejection::Unusable(e)) => annex_d::taken_in(
                    Err(e),
                    annex_d,
                    client_id,
                    data,
                ),
                _ => false,
            },
        },
        _ => answer matches Err(SubmitRejection::InvalidState),
    }
}

/// Hands a response to the exchange it is tagged for, if the session is
/// waiting for one. The session itself is not changed: it is completed only
/// once the response has been authenticated.
pub fn submit_response(session: &Session, client_id: &str, response: &DCAPIResponse) -> (r: Result<
    Submission,
    SubmitRejection,
>)
    ensures
        submitted_as(r, *session, client_id@, *response),
{
    let (annex_c, annex_d) = match session.initiated() {
        Ok(states) => states,
        Err(_) => {
            return Err(SubmitRejection::InvalidState);
        },
    };
    match response {
        DCAPIResponse::OrgIsoMDoc { data } => match annex_c::submit_dc_response_inner(
            annex_c,
            data,
        ) {
            Ok(submission) => Ok(Submission::OrgIsoMDoc(submission)),
            Err(e) => Err(SubmitRejection::Unusable(e)),
        },
        DCAPIResponse::OpenId4VP { data } => match annex_d::submit_dc_response_inner(
            annex_d,
            client_id,
            data,
        ) {
            Ok(submission) => Ok(Submission::OpenId4VP(submission)),
            Err(e) => Err(SubmitRejection::Unusable(e)),
        },
    }
}

/// Whether an answer of `begin_initiate` is one that the session, the
/// configuration and the request allow. A session that is not `Created` is
/// refused as an invalid state, and only such a session. Otherwise what was
/// prepared is what the two exchanges make of the request, and a failure is
/// one of theirs.
pub open spec fn begun_as(
    answer: Result<Initiation, InitiateRejection>,
    session: Session,
    config: Oid4VpConfig,
    request: DCAPINamespaceRequest,
    session_id: Seq<char>,
) -> bool {
    if !(session.state is Created) {
        answer matches Err(InitiateRejection::InvalidState)
    } else {
        match answer {
            Ok(initiation) => {
                &&& initiation.origin@ == request.spec_origin()
                &&& annex_c::freshly_initiated(Ok(initiation.annex_c), config, request)
                &&& annex_c::keeps_committed_transcript(
                    Ok(initiation.annex_c),
                    request.spec_origin(),
                )
                &&& annex_d::freshly_planned(
                    Ok(initiation.authorization_request),
                    request,
                    session_id,
                )
            },
            Err(InitiateRejection::Failed(e)) => annex_c::freshly_initiated(
                Err(e),
                config,
                request,
            ) || annex_d::freshly_planned(Err(e), request, session_id),
            Err(InitiateRejection::InvalidState) => false,
        }
    }
}

/// Begins the initiation of a session: only a session in state `Created`
/// is initiated, and the check comes before any key or nonce is drawn. The
/// request of the direct exchange is made, and the authorization request of
/// the OpenID4VP exchange is planned for the builder.
pub fn begin_initiate(
    session: &Session,
    config: &Oid4VpConfig,
    request: &DCAPINamespaceRequest,
    session_id: &str,
) -> (r: Result<Initiation, InitiateRejection>)
    ensures
        begun_as(r, *session, *config, *request, session_id@),
{
    if !session.is_created() {
        return Err(InitiateRejection::InvalidState);
    }
    let annex_c = match annex_c::initiate_inner(config, request) {
        Ok(pair) => pair,
        Err(e) => {
            return Err(InitiateRejection::Failed(e));
        },
    };
    match annex_d::authorization_request(request, session_id) {
        Ok(authorization_request) => Ok(
            Initiation { annex_c, authorization_request, origin: request.origin().clone() },
        ),
        Err(e) => Err(InitiateRejection::Failed(e)),
    }
}

/// Completes the initiation of a session once the builder has made the
/// request object: the session moves from `Created` to `Initiated` with the
/// continuation states of both exchanges, and the requests to offer are
/// assembled. The origin that the session keeps is the one that the
/// requests were made for. A session in any other state is left as it is.
pub fn complete_initiate(
    session: &mut Session,
    initiation: Initiation,
    oid4vp_session_id: String,
    request_jwt: String,
    offer_annex_c: bool,
) -> (r: Result<DCAPIRequests, SessionError>)
    ensures
        old(session).state is Created ==> {
            &&& r matches Ok(requests)
            &&& requests.requests@.len() == (if offer_annex_c {
                2nat
            } else {
                1nat
            })
            &&& requests.requests@[0] == (DCAPIRequest::OpenId4VP {
                data: DCAPIRequestOpenId4VP { request: request_jwt },
            })
            &&& offer_annex_c ==> requests.requests@[1] == (DCAPIRequest::OrgIsoMDoc {
                data: initiation.annex_c.0,
            })
            &&& final(session).client_secret_hash == old(session).client_secret_hash
            &&& final(session).state matches SessionState::Initiated { annex_c, annex_d }
            &&& annex_c == initiation.annex_c.1
            &&& annex_d.oid4vp_session_id()@ == oid4vp_session_id@
            &&& annex_d.origin()@ == initiation.origin@
            &&& annex_d.nonce()@ == initiation.authorization_request.nonce@
        },
        !(old(session).state is Created) ==> r == Err::<DCAPIRequests, SessionError>(
            SessionError::InvalidState,
        ) && *final(session) == *old(session),
{
    let Initiation { annex_c, authorization_request, origin } = initiation;
    let (annex_c_request, annex_c_state) = annex_c;
    let (annex_d_response, annex_d_state) = annex_d::initiate_inner(
        authorization_request,
        origin,
        oid4vp_session_id,
        request_jwt,
    );
    match session.initiate(annex_c_state, annex_d_state) {
        Ok(()) => Ok(assemble_requests(annex_d_response, annex_c_request, offer_annex_c)),
        Err(e) => Err(e),
    }
}

} // verus!
