//! What can go wrong while a request is made or a response is taken in.

use vstd::prelude::*;

verus! {

/// The step of making a request that failed.
#[derive(Clone, Copy, Debug, PartialEq, Eq, Structural)]
pub enum InitiateStep {
    /// The operating system's random source did not deliver.
    Randomness,
    /// The requested items could not be put into a request.
    ItemsRequest,
    /// The encryption parameters could not be serialized.
    EncryptionInfo,
    /// The handover could not be built.
    Handover,
    /// The session transcript could not be serialized.
    SessionTranscript,
    /// The request information could not be serialized.
    DeviceRequestInfo,
    /// The reader authentication could not be built or serialized.
    ReaderAuthentication,
    /// The verifier's private key could not be loaded.
    SigningKey,
    /// The certificate chain could not be built.
    CertificateChain,
    /// The signature structure could not be prepared.
    Signature,
    /// The device request could not be serialized.
    DeviceRequest,
    /// The session id is not a UUID.
    SessionId,
}

/// A request could not be made.
#[derive(Debug)]
pub struct InitiateError {
    pub step: InitiateStep,
    pub detail: String,
}

/// The step of taking in a response that failed.
#[derive(Clone, Copy, Debug, PartialEq, Eq, Structural)]
pub enum SubmitStep {
    /// The response is not base64 text.
    Encoding,
    /// The decoded response is not the expected CBOR structure.
    Structure,
    /// The encapsulated key is not a valid key.
    EncappedKey,
    /// The stored private key is not a valid key.
    PrivateKey,
    /// The shared secret could not be derived from the keys.
    Decapsulation,
    /// The cipher text does not open under the derived key.
    Decryption,
    /// The plaintext is not a device response.
    DeviceResponse,
    /// The stored session transcript cannot be read back.
    StoredTranscript,
    /// The handover could not be built.
    Handover,
}

/// A response was not usable. This is always the fault of what was
/// submitted, never of the server.
#[derive(Debug)]
pub struct SubmitError {
    pub step: SubmitStep,
    pub detail: String,
}

impl SubmitError {
    /// The HTTP status that goes with any unusable response: 400.
    pub fn status(&self) -> (r: u16)
        ensures
            r == 400,
    {
        400
    }
}

/// The step of setting up or using the verifier's identity that failed.
#[derive(Clone, Copy, Debug, PartialEq, Eq, Structural)]
pub enum ClientStep {
    /// The verifier's private key could not be loaded.
    SigningKey,
    /// The leaf certificate could not be read.
    Certificate,
    /// The leaf certificate names no subject of the configured kind.
    SubjectAltName,
    /// The header of a token could not be serialized.
    Header,
    /// The token could not be signed.
    Signature,
}

/// The verifier's identity could not be set up or used. This is a fault of
/// the configuration, not of a request.
#[derive(Debug)]
pub struct ClientError {
    pub step: ClientStep,
    pub detail: String,
}

} // verus!
