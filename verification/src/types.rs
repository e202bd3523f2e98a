//! The requests and responses that cross the boundary with the browser.

use crate::annex_c;
use crate::annex_d;
use isomdl::definitions::helpers::{NonEmptyMap, NonEmptyVec};
use vstd::prelude::*;

verus! {

/// The request of the direct, encrypted exchange as handed to the browser.
#[derive(Clone, Debug)]
pub struct DCAPIRequestOrgIsoMDoc {
    pub device_request: String,
    pub encryption_info: String,
}

/// The request of the OpenID4VP exchange as handed to the browser.
#[derive(Clone, Debug)]
pub struct DCAPIRequestOpenId4VP {
    pub request: String,
}

/// One of the two alternative requests.
#[allow(inconsistent_fields)]
#[derive(Clone, Debug)]
pub enum DCAPIRequest {
    OrgIsoMDoc { data: DCAPIRequestOrgIsoMDoc },
    OpenId4VP { data: DCAPIRequestOpenId4VP },
}

/// The alternative requests offered for one session.
#[derive(Clone, Debug)]
pub struct DCAPIRequests {
    pub requests: Vec<DCAPIRequest>,
}

/// The two wire protocols.
#[derive(Clone, Copy, Debug, PartialEq, Eq, Structural)]
pub enum DCAPIRequestType {
    OrgIsoMDoc,
    OpenId4VP,
}

/// The holder's response to one of the two requests, as submitted.
#[allow(inconsistent_fields)]
#[derive(Debug)]
pub enum DCAPIResponse {
    OrgIsoMDoc { data: annex_c::DCAPIResponseData },
    OpenId4VP { data: annex_d::DCAPIResponseData },
}

/// Why a set of requested claims was turned down.
#[derive(Clone, Copy, Debug, PartialEq, Eq, Structural)]
pub enum RequestError {
    /// No namespace was requested.
    NoNamespaces,
    /// A namespace was requested without any claim.
    NoClaims,
    /// A namespace was named twice.
    DuplicateNamespace,
}

/// Every namespace of a request names at least one claim, and there is at
/// least one namespace.
pub open spec fn every_level_nonempty(namespaces: Seq<(Seq<char>, Seq<Seq<char>>)>) -> bool {
    &&& namespaces.len() > 0
    &&& forall|i: int| 0 <= i < namespaces.len() ==> (#[trigger] namespaces[i]).1.len() > 0
}

/// No namespace is named twice.
pub open spec fn namespaces_distinct(namespaces: Seq<(Seq<char>, Seq<Seq<char>>)>) -> bool {
    forall|i: int, j: int|
        0 <= i < j < namespaces.len() ==> (#[trigger] namespaces[i]).0 != (
        #[trigger] namespaces[j]).0
}

/// What `DCAPINamespaceRequest::new` answers for a list of namespaces.
pub open spec fn request_check(namespaces: Seq<(Seq<char>, Seq<Seq<char>>)>) -> Result<
    (),
    RequestError,
> {
    if namespaces.len() == 0 {
        Err(RequestError::NoNamespaces)
    } else if !every_level_nonempty(namespaces) {
        Err(RequestError::NoClaims)
    } else if !namespaces_distinct(namespaces) {
        Err(RequestError::DuplicateNamespace)
    } else {
        Ok(())
    }
}

/// A map that holds at least one entry, of the `isomdl` crate.
#[verifier::external_type_specification]
#[verifier::external_body]
#[verifier::reject_recursive_types(K)]
#[verifier::reject_recursive_types(V)]
pub struct ExNonEmptyMap<K: Ord + Eq + Clone, V: Clone>(
    isomdl::definitions::helpers::NonEmptyMap<K, V>,
);

/// A list that holds at least one item, of the `isomdl` crate.
#[verifier::external_type_specification]
#[verifier::external_body]
#[verifier::reject_recursive_types(T)]
pub struct ExNonEmptyVec<T: Clone>(isomdl::definitions::helpers::NonEmptyVec<T>);

/// What a map of requested claims holds: its namespaces in the order of
/// their names, each with its claims in the order they were given.
pub uninterp spec fn requested_claims(
    namespaces: NonEmptyMap<String, NonEmptyVec<String>>,
) -> Seq<(Seq<char>, Seq<Seq<char>>)>;

/// Walks a map of requested claims with `iter` and copies each namespace
/// with its claims. The contract names the list, and claims what the two
/// outside types keep of whatever they hold: there is a namespace, every
/// namespace has a claim, and no namespace occurs twice.
#[verifier::external_body]
fn claims_by_namespace(namespaces: &NonEmptyMap<String, NonEmptyVec<String>>) -> (r: Vec<
    (String, Vec<String>),
>)
    ensures
        r.deep_view() == requested_claims(*namespaces),
        request_check(r.deep_view()) is Ok,
{
    namespaces.iter().map(|(namespace, claims)| (namespace.clone(), claims.to_vec())).collect()
}

/// Calls `NonEmptyVec::maybe_new` on the claims of each namespace and
/// `NonEmptyMap::maybe_new` on the namespaces. The contract claims that the
/// map holds the namespaces that were given, each with its claims; the map
/// keeps them in the order of their names.
#[verifier::external_body]
fn non_empty_claims(entries: Vec<(String, Vec<String>)>) -> (r: NonEmptyMap<
    String,
    NonEmptyVec<String>,
>)
    requires
        request_check(entries.deep_view()) is Ok,
    ensures
        requested_claims(r).to_multiset() == entries.deep_view().to_multiset(),
{
    NonEmptyMap::maybe_new(
        entries.into_iter().map(|(n, c)| (n, NonEmptyVec::maybe_new(c).unwrap())).collect(),
    ).unwrap()
}

/// The claims a relying party asks for, by namespace, and the origin that
/// asks. The map and its lists are non-empty by their types.
#[derive(Debug)]
pub struct DCAPINamespaceRequest {
    pub namespaces: NonEmptyMap<String, NonEmptyVec<String>>,
    pub origin: String,
}

impl DCAPINamespaceRequest {
    /// The requested claims by namespace, in the order of the namespaces'
    /// names.
    pub open spec fn spec_namespaces(self) -> Seq<(Seq<char>, Seq<Seq<char>>)> {
        requested_claims(self.namespaces)
    }

    /// The origin that asks.
    pub open spec fn spec_origin(self) -> Seq<char> {
        self.origin@
    }

    /// Accepts the requested claims if there is at least one namespace, every
    /// namespace names at least one claim, and no namespace is named twice.
    /// The request holds the namespaces that were given, each with its
    /// claims.
    pub fn new(namespaces: Vec<(String, Vec<String>)>, origin: String) -> (r: Result<
        DCAPINamespaceRequest,
        RequestError,
    >)
        ensures
            match r {
                Ok(request) => {
                    &&& request_check(namespaces.deep_view()) is Ok
                    &&& request.spec_namespaces().to_multiset()
                        == namespaces.deep_view().to_multiset()
                    &&& request.spec_origin() == origin@
                },
                Err(e) => request_check(namespaces.deep_view()) == Err::<(), RequestError>(e),
            },
    {
        let ghost model = namespaces.deep_view();
        if namespaces.len() == 0 {
            return Err(RequestError::NoNamespaces);
        }
        let mut i: usize = 0;
        while i < namespaces.len()
            invariant
                i <= namespaces.len(),
                model == namespaces.deep_view(),
                forall|k: int| 0 <= k < i ==> (#[trigger] model[k]).1.len() > 0,
            decreases namespaces.len() - i,
        {
            if namespaces[i].1.len() == 0 {
                assert(model[i as int].1.len() == 0);
                return Err(RequestError::NoClaims);
            }
            assert(model[i as int].1.len() == namespaces[i as int].1.len());
            i += 1;
        }
        assert(every_level_nonempty(model));
        let mut a: usize = 0;
        while a < namespaces.len()
            invariant
                a <= namespaces.len(),
                model == namespaces.deep_view(),
                every_level_nonempty(model),
                forall|x: int, y: int|
                    0 <= x < a && x < y < model.len() ==> (#[trigger] model[x]).0 != (
                    #[trigger] model[y]).0,
            decreases namespaces.len() - a,
        {
            let mut b: usize = a + 1;
            while b < namespaces.len()
                invariant
                    a < b <= namespaces.len(),
                    model == namespaces.deep_view(),
                    every_level_nonempty(model),
                    forall|y: int| a < y < b ==> model[a as int].0 != (#[trigger] model[y]).0,
                decreases namespaces.len() - b,
            {
                if namespaces[a].0 == namespaces[b].0 {
                    assert(model[a as int].0 == model[b as int].0);
                    return Err(RequestError::DuplicateNamespace);
                }
                b += 1;
            }
            a += 1;
        }
        assert(namespaces_distinct(model));
        Ok(DCAPINamespaceRequest { namespaces: non_empty_claims(namespaces), origin })
    }

    /// The requested claims by namespace, in the order of the namespaces'
    /// names: there is a namespace, every namespace has a claim, and no
    /// namespace occurs twice.
    pub fn entries(&self) -> (r: Vec<(String, Vec<String>)>)
        ensures
            r.deep_view() == self.spec_namespaces(),
            request_check(r.deep_view()) is Ok,
    {
        claims_by_namespace(&self.namespaces)
    }

    /// The origin that asks.
    pub fn origin(&self) -> (r: &String)
        ensures
            r@ == self.spec_origin(),
    {
        &self.origin
    }
}

impl DCAPIRequest {
    /// The protocol of a request.
    pub fn request_type(&self) -> (r: DCAPIRequestType)
        ensures
            r == match *self {
                DCAPIRequest::OrgIsoMDoc { .. } => DCAPIRequestType::OrgIsoMDoc,
                DCAPIRequest::OpenId4VP { .. } => DCAPIRequestType::OpenId4VP,
            },
    {
        match self {
            DCAPIRequest::OrgIsoMDoc { .. } => DCAPIRequestType::OrgIsoMDoc,
            DCAPIRequest::OpenId4VP { .. } => DCAPIRequestType::OpenId4VP,
        }
    }
}

impl DCAPIResponse {
    /// The protocol of a response.
    pub fn request_type(&self) -> (r: DCAPIRequestType)
        ensures
            r == match *self {
                DCAPIResponse::OrgIsoMDoc { .. } => DCAPIRequestType::OrgIsoMDoc,
                DCAPIResponse::OpenId4VP { .. } => DCAPIRequestType::OpenId4VP,
            },
    {
        match self {
            DCAPIResponse::OrgIsoMDoc { .. } => DCAPIRequestType::OrgIsoMDoc,
            DCAPIResponse::OpenId4VP { .. } => DCAPIRequestType::OpenId4VP,
        }
    }
}

impl DCAPIRequestType {
    /// The name by which a protocol is tagged on the wire.
    pub fn protocol(&self) -> (r: &'static str)
        ensures
            r@ == match *self {
                DCAPIRequestType::OrgIsoMDoc => "org-iso-mdoc"@,
                DCAPIRequestType::OpenId4VP => "openid4vp"@,
            },
    {
        match self {
            DCAPIRequestType::OrgIsoMDoc => "org-iso-mdoc",
            DCAPIRequestType::OpenId4VP => "openid4vp",
        }
    }
}

/// A request without a namespace, or with a namespace without a claim, is
/// turned down, whatever else it holds.
pub proof fn lemma_empty_request_is_rejected(namespaces: Seq<(Seq<char>, Seq<Seq<char>>)>)
    requires
        namespaces.len() == 0 || exists|i: int|
            0 <= i < namespaces.len() && (#[trigger] namespaces[i]).1.len() == 0,
    ensures
        request_check(namespaces) is Err,
        request_check(namespaces) != Err::<(), RequestError>(RequestError::DuplicateNamespace),
{
}

/// A request that is accepted is non-empty at every level.
pub proof fn lemma_accepted_request_is_nonempty(namespaces: Seq<(Seq<char>, Seq<Seq<char>>)>)
    requires
        request_check(namespaces) is Ok,
    ensures
        namespaces.len() > 0,
        forall|i: int| 0 <= i < namespaces.len() ==> (#[trigger] namespaces[i]).1.len() > 0,
        namespaces_distinct(namespaces),
{
}

} // verus!
