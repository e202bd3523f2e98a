//! What a deployment configures: where the verifier lives, and the key and
//! certificate chain it signs with.

use vstd::prelude::*;

verus! {

/// The verifier's signing material.
#[derive(Clone, Debug)]
pub struct Client {
    /// The certificate chain, leaf first, each certificate in DER.
    pub x5c: Vec<Vec<u8>>,
    /// The private key, PEM encoded.
    pub key: String,
}

/// The configuration of the verifier.
#[derive(Clone, Debug)]
pub struct Oid4VpConfig {
    pub base_url: String,
    pub client: Client,
    pub submission_endpoint: String,
    pub reference_endpoint: String,
}

} // verus!
