//! The verifier's identity, derived from the subject alternative name of
//! its leaf certificate, and the tokens it signs.

use crate::encoding::{base64_encode, base64_text, base64url_encode, base64url_text};
use crate::error::{ClientError, ClientStep};
use crate::json::{
    json_array, json_encoding, json_error_text, json_members, json_model, json_models,
    json_object, json_string, json_to_vec, JsonModel,
};
use vstd::prelude::*;
use vstd::string::StringExecFns;
use x509_cert::der::Decode;
use x509_cert::ext::pkix::name::GeneralName;
use x509_cert::ext::pkix::SubjectAltName;

verus! {

/// The kind of subject alternative name that identifies the verifier.
#[derive(Clone, Copy, Debug, PartialEq, Eq, Structural)]
pub enum X509SanVariant {
    Uri,
    Dns,
}

/// One entry of a subject alternative name, as far as it matters here.
#[derive(Clone, Debug)]
pub enum SanEntry {
    Dns(String),
    Uri(String),
    Other,
}

/// One entry of a subject alternative name, by its text.
pub enum SanName {
    Dns(Seq<char>),
    Uri(Seq<char>),
    Other,
}

impl View for SanEntry {
    type V = SanName;

    open spec fn view(&self) -> SanName {
        match self {
            SanEntry::Dns(name) => SanName::Dns(name@),
            SanEntry::Uri(name) => SanName::Uri(name@),
            SanEntry::Other => SanName::Other,
        }
    }
}

/// The texts of a list of entries.
pub open spec fn san_names(entries: Seq<SanEntry>) -> Seq<SanName> {
    Seq::new(entries.len(), |i: int| entries[i]@)
}

/// The entries of the subject alternative names of a DER certificate, in
/// their order, if the certificate can be read.
pub uninterp spec fn subject_alt_names(certificate: Seq<u8>) -> Option<Seq<SanName>>;

/// Calls `x509_cert::Certificate::from_der` and, on the certificate's
/// `tbs_certificate`, `filter` for subject alternative names, of which it
/// hands out the entries in order: DNS names and URIs by their text,
/// anything else as other. An extension that cannot be decoded contributes
/// no entries. The contract names the list.
#[verifier::external_body]
pub(crate) fn read_subject_alt_names(certificate: &[u8]) -> (r: Result<Vec<SanEntry>, String>)
    ensures
        match r {
            Ok(entries) => subject_alt_names(certificate@) == Some(san_names(entries@)),
            Err(_) => subject_alt_names(certificate@) is None,
        },
{
    let leaf = x509_cert::Certificate::from_der(certificate).map_err(|e| format!("{e:?}"))?;
    Ok(
        leaf.tbs_certificate.filter::<SubjectAltName>().filter_map(|r| r.ok()).flat_map(
            |(_, san)| san.0,
        ).map(
            |name|
                match name {
                    GeneralName::DnsName(n) => SanEntry::Dns(n.to_string()),
                    GeneralName::UniformResourceIdentifier(n) => SanEntry::Uri(n.to_string()),
                    _ => SanEntry::Other,
                },
        ).collect(),
    )
}

/// The texts of a list as JSON strings.
pub open spec fn json_texts(texts: Seq<Seq<char>>) -> Seq<JsonModel> {
    Seq::new(texts.len(), |i: int| JsonModel::Text(texts[i]))
}

/// The header of a signed request object: the algorithm under `alg`, the
/// certificate chain under `x5c`, and the type under `typ`.
pub open spec fn jwt_header_model(
    algorithm: Seq<char>,
    x5c: Seq<Seq<char>>,
    typ: Seq<char>,
) -> JsonModel {
    JsonModel::Object(
        Map::empty().insert("alg"@, JsonModel::Text(algorithm)).insert(
            "x5c"@,
            JsonModel::List(json_texts(x5c)),
        ).insert("typ"@, JsonModel::Text(typ)),
    )
}

/// The JSON text of the header of a signed request object.
pub open spec fn jwt_header_json(
    algorithm: Seq<char>,
    x5c: Seq<Seq<char>>,
    typ: Seq<char>,
) -> Option<Seq<u8>> {
    json_encoding(jwt_header_model(algorithm, x5c, typ))
}

/// Writes the header of a signed request object.
pub(crate) fn jwt_header_bytes(algorithm: &str, x5c: &Vec<String>, typ: &str) -> (r: Result<
    Vec<u8>,
    String,
>)
    ensures
        match r {
            Ok(bytes) => jwt_header_json(algorithm@, x5c.deep_view(), typ@) == Some(bytes@),
            Err(_) => jwt_header_json(algorithm@, x5c.deep_view(), typ@) is None,
        },
{
    let mut chain: Vec<serde_json::Value> = Vec::new();
    let mut i: usize = 0;
    while i < x5c.len()
        invariant
            i <= x5c.len(),
            chain@.len() == i,
            forall|k: int| 0 <= k < i ==> json_model(#[trigger] chain@[k]) == JsonModel::Text(
                x5c@[k]@,
            ),
        decreases x5c.len() - i,
    {
        chain.push(json_string(x5c[i].as_str()));
        i += 1;
    }
    assert(json_models(chain@) =~= json_texts(x5c.deep_view()));
    let mut members: Vec<(String, serde_json::Value)> = Vec::new();
    members.push(("alg".to_owned(), json_string(algorithm)));
    members.push(("x5c".to_owned(), json_array(chain)));
    members.push(("typ".to_owned(), json_string(typ)));
    proof {
        let all = members@;
        reveal_with_fuel(json_members, 4);
        assert(all.drop_last().drop_last().drop_last() =~= Seq::empty());
        assert(all.drop_last().drop_last().last() == all[0]);
        assert(all.drop_last().last() == all[1]);
        assert(all.last() == all[2]);
        assert(json_members(all) == Map::<Seq<char>, JsonModel>::empty().insert(
            "alg"@,
            JsonModel::Text(algorithm@),
        ).insert("x5c"@, JsonModel::List(json_texts(x5c.deep_view()))).insert(
            "typ"@,
            JsonModel::Text(typ@),
        ));
    }
    let header = json_object(members);
    match json_to_vec(&header) {
        Ok(bytes) => Ok(bytes),
        Err(e) => Err(json_error_text(&e)),
    }
}

/// The name under which an entry identifies the verifier, if it is of the
/// configured kind.
pub open spec fn name_of_kind(entry: SanName, variant: X509SanVariant) -> Option<Seq<char>> {
    match (entry, variant) {
        (SanName::Dns(name), X509SanVariant::Dns) => Some(name),
        (SanName::Uri(name), X509SanVariant::Uri) => Some(name),
        _ => None,
    }
}

/// The first name of the configured kind among the entries.
pub open spec fn first_name_of_kind(entries: Seq<SanName>, variant: X509SanVariant) -> Option<
    Seq<char>,
>
    decreases entries.len(),
{
    if entries.len() == 0 {
        None
    } else {
        match name_of_kind(entries[0], variant) {
            Some(name) => Some(name),
            None => first_name_of_kind(entries.drop_first(), variant),
        }
    }
}

/// The scheme of a client identifier.
pub open spec fn scheme_text(variant: X509SanVariant) -> Seq<char> {
    match variant {
        X509SanVariant::Dns => "x509_san_dns"@,
        X509SanVariant::Uri => "x509_san_uri"@,
    }
}

/// The client identifier for a name: the scheme, a colon, and the name.
pub open spec fn client_id_text(variant: X509SanVariant, name: Seq<char>) -> Seq<char> {
    scheme_text(variant) + ":"@ + name
}

/// The type of a signed request object.
pub open spec fn request_object_type() -> Seq<char> {
    "oauth-authz-req+jwt"@
}

/// The certificates of a chain as the header carries them: each in standard
/// base64, in the order of the chain.
pub open spec fn chain_texts(x5c: Seq<Vec<u8>>) -> Seq<Seq<char>> {
    Seq::new(x5c.len(), |i: int| base64_text(x5c[i]@))
}

/// What a token's signature covers: the header and the payload, each as
/// unpadded URL-safe base64, joined by a dot.
pub open spec fn signing_input_text(header: Seq<u8>, payload: Seq<u8>) -> Seq<char> {
    base64url_text(header) + "."@ + base64url_text(payload)
}

/// A compact token: what was signed, a dot, and the signature as unpadded
/// URL-safe base64.
pub open spec fn token_text(signing_input: Seq<char>, signature: Seq<u8>) -> Seq<char> {
    signing_input + "."@ + base64url_text(signature)
}

impl X509SanVariant {
    /// The scheme of the client identifiers of this kind.
    pub fn scheme(&self) -> (r: &'static str)
        ensures
            r@ == scheme_text(*self),
    {
        match self {
            X509SanVariant::Dns => "x509_san_dns",
            X509SanVariant::Uri => "x509_san_uri",
        }
    }
}

/// The first name of the configured kind among the entries of a subject
/// alternative name.
pub fn select_name(entries: &Vec<SanEntry>, variant: X509SanVariant) -> (r: Option<String>)
    ensures
        match r {
            Some(name) => first_name_of_kind(san_names(entries@), variant) == Some(name@),
            None => first_name_of_kind(san_names(entries@), variant) is None,
        },
{
    let ghost names = san_names(entries@);
    let mut i: usize = 0;
    assert(names.skip(0) =~= names);
    while i < entries.len()
        invariant
            i <= entries.len(),
            names == san_names(entries@),
            first_name_of_kind(names, variant) == first_name_of_kind(names.skip(i as int), variant),
        decreases entries.len() - i,
    {
        proof {
            assert(names.skip(i as int)[0] == names[i as int]);
            assert(names.skip(i as int).drop_first() =~= names.skip(i as int + 1));
        }
        match (&entries[i], variant) {
            (SanEntry::Dns(name), X509SanVariant::Dns) => {
                return Some(name.clone());
            },
            (SanEntry::Uri(name), X509SanVariant::Uri) => {
                return Some(name.clone());
            },
            _ => {},
        }
        i += 1;
    }
    assert(names.skip(i as int) =~= Seq::<SanName>::empty());
    None
}

/// A verifier identified by a subject alternative name of its leaf
/// certificate.
#[derive(Clone, Debug)]
pub struct X509SanClient {
    id: String,
    x5c: Vec<Vec<u8>>,
    variant: X509SanVariant,
}

/// What `X509SanClient::new` answers for a chain and a kind of name: the
/// client identifier, or the step that fails.
pub open spec fn client_id_for(x5c: Seq<Vec<u8>>, variant: X509SanVariant) -> Result<
    Seq<char>,
    ClientStep,
> {
    if x5c.len() == 0 {
        Err(ClientStep::Certificate)
    } else {
        match subject_alt_names(x5c[0]@) {
            None => Err(ClientStep::Certificate),
            Some(entries) => match first_name_of_kind(entries, variant) {
                None => Err(ClientStep::SubjectAltName),
                Some(name) => Ok(client_id_text(variant, name)),
            },
        }
    }
}

impl X509SanClient {
    /// The verifier whose identifier is the scheme of the configured kind, a
    /// colon, and the first subject alternative name of that kind in the
    /// leaf certificate, which is the first of the chain. A chain without
    /// a certificate, a leaf that cannot be read and a leaf without such a
    /// name are faults of the configuration, and are reported as such.
    pub fn new(x5c: Vec<Vec<u8>>, variant: X509SanVariant) -> (r: Result<Self, ClientError>)
        ensures
            match r {
                Ok(client) => {
                    &&& client_id_for(x5c@, variant) == Ok::<Seq<char>, ClientStep>(client.id()@)
                    &&& client.x5c() == x5c
                    &&& client.variant() == variant
                },
                Err(e) => client_id_for(x5c@, variant) == Err::<Seq<char>, ClientStep>(e.step),
            },
    {
        if x5c.len() == 0 {
            return Err(
                ClientError {
                    step: ClientStep::Certificate,
                    detail: "the certificate chain is empty".to_owned(),
                },
            );
        }
        let entries = match read_subject_alt_names(x5c[0].as_slice()) {
            Ok(entries) => entries,
            Err(detail) => {
                return Err(ClientError { step: ClientStep::Certificate, detail });
            },
        };
        let name = match select_name(&entries, variant) {
            Some(name) => name,
            None => {
                return Err(
                    ClientError {
                        step: ClientStep::SubjectAltName,
                        detail: "x509 certificate does not contain Subject Alternative Name"
                            .to_owned(),
                    },
                );
            },
        };
        let id = String::from_str(variant.scheme()).concat(":").concat(name.as_str());
        Ok(X509SanClient { id, x5c, variant })
    }

    /// The client identifier.
    #[verifier::when_used_as_spec(spec_id)]
    pub fn id(&self) -> (r: &String)
        ensures
            r == self.spec_id(),
    {
        &self.id
    }

    pub closed spec fn spec_id(&self) -> &String {
        &self.id
    }

    /// The certificate chain, leaf first, each certificate in DER.
    #[verifier::when_used_as_spec(spec_x5c)]
    pub fn x5c(&self) -> (r: &Vec<Vec<u8>>)
        ensures
            r == self.spec_x5c(),
    {
        &self.x5c
    }

    pub closed spec fn spec_x5c(&self) -> &Vec<Vec<u8>> {
        &self.x5c
    }

    /// The kind of name that identifies the verifier.
    #[verifier::when_used_as_spec(spec_variant)]
    pub fn variant(&self) -> (r: X509SanVariant)
        ensures
            r == self.spec_variant(),
    {
        self.variant
    }

    pub closed spec fn spec_variant(&self) -> X509SanVariant {
        self.variant
    }

    /// The scheme of the client identifier.
    pub fn scheme(&self) -> (r: &'static str)
        ensures
            r@ == scheme_text(self.variant()),
    {
        self.variant.scheme()
    }

    /// The certificates of the chain in standard base64, in order.
    fn chain_in_base64(&self) -> (r: Vec<String>)
        ensures
            r.deep_view() == chain_texts(self.x5c()@),
    {
        let mut out: Vec<String> = Vec::new();
        let mut i: usize = 0;
        while i < self.x5c.len()
            invariant
                i <= self.x5c.len(),
                out@.len() == i,
                forall|k: int| 0 <= k < i ==> (#[trigger] out@[k])@ == base64_text(self.x5c@[k]@),
            decreases self.x5c.len() - i,
        {
            out.push(base64_encode(self.x5c[i].as_slice()));
            i += 1;
        }
        assert(out.deep_view() =~= chain_texts(self.x5c()@));
        out
    }

    /// What is to be signed for a request object: a header that names the
    /// algorithm, carries the certificate chain in its order and has the
    /// type of a request object; a dot; and the payload. Both parts are in
    /// unpadded URL-safe base64.
    pub fn generate_request_object_jwt(&self, algorithm: &str, body: &[u8]) -> (r: Result<
        String,
        ClientError,
    >)
        ensures
            match r {
                Ok(signing_input) => {
                    let header = jwt_header_json(
                        algorithm@,
                        chain_texts(self.x5c()@),
                        request_object_type(),
                    );
                    header is Some && signing_input@ == signing_input_text(header.unwrap(), body@)
                },
                Err(e) => e.step == ClientStep::Header && jwt_header_json(
                    algorithm@,
                    chain_texts(self.x5c()@),
                    request_object_type(),
                ) is None,
            },
    {
        let x5c = self.chain_in_base64();
        let header = match jwt_header_bytes(algorithm, &x5c, "oauth-authz-req+jwt") {
            Ok(bytes) => bytes,
            Err(detail) => {
                return Err(ClientError { step: ClientStep::Header, detail });
            },
        };
        let header_b64 = base64url_encode(header.as_slice());
        let body_b64 = base64url_encode(body);
        Ok(header_b64.concat(".").concat(body_b64.as_str()))
    }
}

/// Completes a token: what was signed, a dot, and the signature in unpadded
/// URL-safe base64. The signature must cover the bytes of `signing_input`
/// exactly as they are.
pub fn make_jwt(signing_input: String, signature: &[u8]) -> (r: String)
    ensures
        r@ == token_text(signing_input@, signature@),
{
    let signature_b64 = base64url_encode(signature);
    signing_input.concat(".").concat(signature_b64.as_str())
}

} // verus!
