//! Verifier-side core of a browser-mediated credential exchange: the session
//! state machine, the handover and session-transcript construction of the two
//! wire protocols, and the verifier's client identity and request tokens.

pub mod annex_c;
pub mod annex_d;
pub mod cbor;
pub mod client;
pub mod config;
pub mod dc_api;
pub mod device_request;
pub mod encoding;
pub mod error;
pub mod identifiers;
pub mod json;
pub mod key_agreement;
pub mod mdoc;
pub mod rng;
pub mod session;
pub mod transcript;
pub mod types;
pub mod x509_client;
