//! The verifier as a client of the OpenID4VP exchange: identified by the
//! DNS name of its leaf certificate, signing with its configured key.

use crate::config::Oid4VpConfig;
use crate::device_request::{check_signing_key, es256_signature, sign_es256, signing_key_accepted};
use crate::error::{ClientError, ClientStep};
use crate::x509_client::{
    chain_texts, client_id_for, jwt_header_json, make_jwt, request_object_type, scheme_text,
    signing_input_text, token_text, X509SanClient, X509SanVariant,
};
use vstd::prelude::*;
use vstd::utf8::encode_utf8;

verus! {

/// A copy of a certificate chain.
fn copy_chain(x5c: &Vec<Vec<u8>>) -> (r: Vec<Vec<u8>>)
    ensures
        r@.len() == x5c@.len(),
        forall|i: int| 0 <= i < r@.len() ==> (#[trigger] r@[i])@ == x5c@[i]@,
{
    let mut out: Vec<Vec<u8>> = Vec::new();
    let mut i: usize = 0;
    while i < x5c.len()
        invariant
            i <= x5c.len(),
            out@.len() == i,
            forall|k: int| 0 <= k < i ==> (#[trigger] out@[k])@ == x5c@[k]@,
        decreases x5c.len() - i,
    {
        out.push(vstd::slice::slice_to_vec(x5c[i].as_slice()));
        i += 1;
    }
    out
}

/// The signature algorithm of the verifier's key.
pub open spec fn algorithm() -> Seq<char> {
    "ES256"@
}

/// The verifier as a client.
#[derive(Clone, Debug)]
pub struct OID4VPClient {
    inner: X509SanClient,
    key: String,
}

/// What `OID4VPClient::new` answers for a key and a chain: the client
/// identifier, or the step that fails.
pub open spec fn client_for(key_pem: Seq<char>, x5c: Seq<Vec<u8>>) -> Result<
    Seq<char>,
    ClientStep,
> {
    if !signing_key_accepted(key_pem) {
        Err(ClientStep::SigningKey)
    } else {
        client_id_for(x5c, X509SanVariant::Dns)
    }
}

/// What `OID4VPClient::generate_request_object_jwt` answers for a key, a
/// chain and a payload: the signed token, or the step that fails.
pub open spec fn request_object_jwt(key_pem: Seq<char>, x5c: Seq<Vec<u8>>, body: Seq<u8>) -> Result<
    Seq<char>,
    ClientStep,
> {
    match jwt_header_json(algorithm(), chain_texts(x5c), request_object_type()) {
        None => Err(ClientStep::Header),
        Some(header) => {
            let signing_input = signing_input_text(header, body);
            match es256_signature(key_pem, encode_utf8(signing_input)) {
                None => Err(ClientStep::Signature),
                Some(signature) => Ok(token_text(signing_input, signature)),
            }
        },
    }
}

impl OID4VPClient {
    /// The client for a configuration: its key must load, its chain must
    /// hold a certificate, and the leaf must name a DNS subject alternative
    /// name, from which the client identifier is made. Anything else is a
    /// fault of the configuration, and is reported as such.
    pub fn new(config: &Oid4VpConfig) -> (r: Result<Self, ClientError>)
        ensures
            match r {
                Ok(client) => {
                    &&& client_for(config.client.key@, config.client.x5c@) == Ok::<
                        Seq<char>,
                        ClientStep,
                    >(client.id()@)
                    &&& client.key()@ == config.client.key@
                    &&& chain_texts(client.x5c()@) == chain_texts(config.client.x5c@)
                },
                Err(e) => client_for(config.client.key@, config.client.x5c@) == Err::<
                    Seq<char>,
                    ClientStep,
                >(e.step),
            },
    {
        match check_signing_key(config.client.key.as_str()) {
            Ok(()) => {},
            Err(detail) => {
                return Err(ClientError { step: ClientStep::SigningKey, detail });
            },
        }
        let x5c = copy_chain(&config.client.x5c);
        assert(chain_texts(x5c@) =~= chain_texts(config.client.x5c@));
        match X509SanClient::new(x5c, X509SanVariant::Dns) {
            Ok(inner) => Ok(OID4VPClient { inner, key: config.client.key.clone() }),
            Err(e) => Err(e),
        }
    }

    /// The client identifier.
    #[verifier::when_used_as_spec(spec_id)]
    pub fn id(&self) -> (r: &String)
        ensures
            r == self.spec_id(),
    {
        self.inner.id()
    }

    pub closed spec fn spec_id(&self) -> &String {
        self.inner.id()
    }

    /// The private key, PEM encoded.
    #[verifier::when_used_as_spec(spec_key)]
    pub fn key(&self) -> (r: &String)
        ensures
            r == self.spec_key(),
    {
        &self.key
    }

    pub closed spec fn spec_key(&self) -> &String {
        &self.key
    }

    /// The certificate chain, leaf first, each certificate in DER.
    #[verifier::when_used_as_spec(spec_x5c)]
    pub fn x5c(&self) -> (r: &Vec<Vec<u8>>)
        ensures
            r == self.spec_x5c(),
    {
        self.inner.x5c()
    }

    pub closed spec fn spec_x5c(&self) -> &Vec<Vec<u8>> {
        self.inner.x5c()
    }

    /// The scheme of the client identifier.
    pub fn scheme(&self) -> (r: &'static str)
        ensures
            r@ == scheme_text(X509SanVariant::Dns) || r@ == scheme_text(X509SanVariant::Uri),
    {
        self.inner.scheme()
    }

    /// Signs a request object: the header names the algorithm of the key,
    /// carries the certificate chain in its order and has the type of a
    /// request object; the signature covers the header and the payload
    /// exactly as they are transmitted.
    pub fn generate_request_object_jwt(&self, body: &[u8]) -> (r: Result<String, ClientError>)
        ensures
            match r {
                Ok(token) => request_object_jwt(self.key()@, self.x5c()@, body@) == Ok::<
                    Seq<char>,
                    ClientStep,
                >(token@),
                Err(e) => request_object_jwt(self.key()@, self.x5c()@, body@) == Err::<
                    Seq<char>,
                    ClientStep,
                >(e.step),
            },
    {
        let signing_input = match self.inner.generate_request_object_jwt("ES256", body) {
            Ok(text) => text,
            Err(e) => {
                return Err(e);
            },
        };
        match sign_es256(self.key.as_str(), signing_input.as_str().as_bytes()) {
            Ok(signature) => Ok(make_jwt(signing_input, signature.as_slice())),
            Err(detail) => Err(ClientError { step: ClientStep::Signature, detail }),
        }
    }
}

} // verus!
