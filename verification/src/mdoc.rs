//! Device responses, read through the `isomdl` crate.

use isomdl::definitions::x509::X5Chain;
use isomdl::definitions::{DeviceResponse, Document};
use isomdl::presentation::authentication::ResponseAuthenticationOutcome;
use crate::json::{json_array, json_members, json_string, JsonModel};
use isomdl::presentation::authentication::AuthenticationStatus;
use std::collections::BTreeMap;
use vstd::prelude::*;

verus! {

/// The outcome of authenticating a device response, of the `isomdl` crate.
#[verifier::external_type_specification]
#[verifier::external_body]
pub struct ExResponseAuthenticationOutcome(
    isomdl::presentation::authentication::ResponseAuthenticationOutcome,
);

/// How an authenticity check ended, of the `isomdl` crate.
#[verifier::external_type_specification]
pub struct ExAuthenticationStatus(isomdl::presentation::authentication::AuthenticationStatus);

/// A device response, of the `isomdl` crate.
#[verifier::external_type_specification]
#[verifier::external_body]
pub struct ExDeviceResponse(isomdl::definitions::DeviceResponse);

/// One document of a device response, of the `isomdl` crate.
#[verifier::external_type_specification]
#[verifier::external_body]
pub struct ExDocument(isomdl::definitions::Document);

/// A chain of certificates, of the `isomdl` crate.
#[verifier::external_type_specification]
#[verifier::external_body]
pub struct ExX5Chain(isomdl::definitions::x509::X5Chain);

/// Specifies the derived `Clone` of
/// `isomdl::presentation::authentication::ResponseAuthenticationOutcome`:
/// the copy is equal to the value it was made from.
pub assume_specification[ <ResponseAuthenticationOutcome as Clone>::clone ](
    outcome: &ResponseAuthenticationOutcome,
) -> (r: ResponseAuthenticationOutcome)
    ensures
        r == *outcome,
;

/// The device response that `isomdl::cbor::from_slice` reads from a byte
/// string, if it reads one.
pub uninterp spec fn decoded_device_response(bytes: Seq<u8>) -> Option<DeviceResponse>;

/// What `isomdl::presentation::reader::parse` finds in a device response:
/// the document, its certificate chain and its claims, if it finds them.
pub uninterp spec fn strictly_parsed(response: DeviceResponse) -> Option<StrictParse>;

/// The claims that `isomdl::presentation::reader::parse_namespaces` finds in
/// a device response, if it finds them.
pub uninterp spec fn recovered_namespaces(response: DeviceResponse) -> Option<
    BTreeMap<String, serde_json::Value>,
>;

/// The claims that an outcome reports.
pub uninterp spec fn outcome_response(outcome: ResponseAuthenticationOutcome) -> BTreeMap<
    String,
    serde_json::Value,
>;

/// The errors that an outcome reports, by their key.
pub uninterp spec fn outcome_errors(outcome: ResponseAuthenticationOutcome) -> Map<
    Seq<char>,
    JsonModel,
>;

/// How the authentication of the issuer ended in an outcome.
pub uninterp spec fn outcome_issuer_authentication(
    outcome: ResponseAuthenticationOutcome,
) -> AuthenticationStatus;

/// How the authentication of the device ended in an outcome.
pub uninterp spec fn outcome_device_authentication(
    outcome: ResponseAuthenticationOutcome,
) -> AuthenticationStatus;

/// The key under which the errors of parsing are reported.
pub open spec fn parsing_errors_key() -> Seq<char> {
    "parsing_errors"@
}

/// What strict parsing finds in a device response: the document, the chain of
/// certificates that signed it, and its claims by namespace.
pub struct StrictParse {
    pub document: Document,
    pub x5chain: X5Chain,
    pub namespaces: BTreeMap<String, serde_json::Value>,
}

/// The result of reading a device response.
pub enum Parsed {
    /// The response parsed; it is ready to be authenticated.
    Complete(StrictParse),
    /// The response did not parse; what could be recovered is reported with
    /// the error. Nothing in it has been authenticated.
    Partial(ResponseAuthenticationOutcome),
}

/// Calls `isomdl::cbor::from_slice` for an
/// `isomdl::definitions::DeviceResponse`. The contract names the outcome.
#[verifier::external_body]
pub(crate) fn decode_device_response(bytes: &[u8]) -> (r: Result<DeviceResponse, String>)
    ensures
        match r {
            Ok(response) => decoded_device_response(bytes@) == Some(response),
            Err(_) => decoded_device_response(bytes@) is None,
        },
{
    isomdl::cbor::from_slice(bytes).map_err(|e| format!("{:?}", e))
}

/// Calls `isomdl::presentation::reader::parse` and copies the document it
/// points to. The contract names what it finds; the rendering of the error
/// is not specified.
#[verifier::external_body]
pub(crate) fn parse_strictly(response: &DeviceResponse) -> (r: Result<StrictParse, String>)
    ensures
        match r {
            Ok(parse) => strictly_parsed(*response) == Some(parse),
            Err(_) => strictly_parsed(*response) is None,
        },
{
    isomdl::presentation::reader::parse(response).map(
        |(document, x5chain, namespaces)|
            StrictParse { document: document.clone(), x5chain, namespaces },
    ).map_err(|e| format!("{e:?}"))
}

/// Calls `isomdl::presentation::reader::parse_namespaces`. The contract
/// names what it finds.
#[verifier::external_body]
pub(crate) fn recover_namespaces(response: &DeviceResponse) -> (r: Option<
    BTreeMap<String, serde_json::Value>,
>)
    ensures
        r == recovered_namespaces(*response),
{
    isomdl::presentation::reader::parse_namespaces(response).ok()
}

/// Builds an `isomdl::presentation::authentication::ResponseAuthenticationOutcome`
/// from claims and errors, with every other field at its default. The
/// contract states the claims and the errors it holds, and that neither
/// authentication has been checked.
#[verifier::external_body]
pub(crate) fn unauthenticated_outcome(
    response: BTreeMap<String, serde_json::Value>,
    errors: Vec<(String, serde_json::Value)>,
) -> (r: ResponseAuthenticationOutcome)
    ensures
        outcome_response(r) == response,
        outcome_errors(r) == json_members(errors@),
        outcome_issuer_authentication(r) == AuthenticationStatus::Unchecked,
        outcome_device_authentication(r) == AuthenticationStatus::Unchecked,
{
    ResponseAuthenticationOutcome {
        response,
        errors: errors.into_iter().collect(),
        ..Default::default()
    }
}

/// Whether an outcome reports exactly one parsing error and nothing else,
/// with the claims that could be recovered, and with nothing authenticated.
pub open spec fn reports_parsing_error(
    outcome: ResponseAuthenticationOutcome,
    response: DeviceResponse,
) -> bool {
    &&& exists|message: Seq<char>| #[trigger]
        parsing_errors(message) == outcome_errors(outcome)
    &&& outcome_response(outcome)@ == (if recovered_namespaces(response) is Some {
        recovered_namespaces(response).unwrap()@
    } else {
        Map::empty()
    })
    &&& outcome_issuer_authentication(outcome) == AuthenticationStatus::Unchecked
    &&& outcome_device_authentication(outcome) == AuthenticationStatus::Unchecked
}

/// The errors of an outcome that reports one parsing error: a list of the
/// one message under the key for parsing errors.
pub open spec fn parsing_errors(message: Seq<char>) -> Map<Seq<char>, JsonModel> {
    Map::empty().insert(parsing_errors_key(), JsonModel::List(seq![JsonModel::Text(message)]))
}

/// Whether a reading is the one that a device response calls for: what
/// strict parsing finds, where it finds it, else a report of the parsing
/// error.
pub open spec fn parsed_as(parsed: Parsed, response: DeviceResponse) -> bool {
    match parsed {
        Parsed::Complete(parse) => strictly_parsed(response) == Some(parse),
        Parsed::Partial(partial) => strictly_parsed(response) is None && reports_parsing_error(
            partial,
            response,
        ),
    }
}

/// Reads a device response. Where it parses, the document, its certificate
/// chain and its claims are handed on for authentication. Where it does not,
/// the parsing error is reported, together with the claims if they can still
/// be read, instead of failing outright.
pub fn parse_response(response: &DeviceResponse) -> (r: Parsed)
    ensures
        parsed_as(r, *response),
{
    match parse_strictly(response) {
        Ok(parse) => Parsed::Complete(parse),
        Err(message) => {
            let claims = match recover_namespaces(response) {
                Some(claims) => claims,
                None => BTreeMap::new(),
            };
            let mut messages: Vec<serde_json::Value> = Vec::new();
            messages.push(json_string(message.as_str()));
            let mut errors: Vec<(String, serde_json::Value)> = Vec::new();
            errors.push(("parsing_errors".to_owned(), json_array(messages)));
            proof {
                reveal_with_fuel(json_members, 2);
                assert(errors@.drop_last() =~= Seq::empty());
                assert(crate::json::json_models(messages@) =~= seq![JsonModel::Text(message@)]);
                assert(json_members(errors@) == parsing_errors(message@));
            }
            Parsed::Partial(unauthenticated_outcome(claims, errors))
        },
    }
}

} // verus!
