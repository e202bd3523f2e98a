use base64::prelude::{Engine, BASE64_STANDARD, BASE64_URL_SAFE_NO_PAD};
use dc_api_core::client::OID4VPClient;
use dc_api_core::config::{Client, Oid4VpConfig};
use dc_api_core::error::ClientStep;
use dc_api_core::x509_client::{make_jwt, select_name, SanEntry, X509SanClient, X509SanVariant};
use p256::ecdsa::signature::Verifier;
use p256::pkcs8::{EncodePrivateKey, LineEnding};

const LEAF: &str = "MIIBjzCCATSgAwIBAgICA+gwCgYIKoZIzj0EAwIwGzEZMBcGA1UEAwwQdmVyaWZpZXIuZXhhbXBsZTAeFw0yNTAxMDEwMDAwMDBaFw00NTAxMDEwMDAwMDBaMBsxGTAXBgNVBAMMEHZlcmlmaWVyLmV4YW1wbGUwWTATBgcqhkjOPQIBBggqhkjOPQMBBwNCAAQCF+YX8LZEOSgnj5aZnmmiOk8sFSvfbWzfZuW4AoLU7RlKfevLl3EtLdo8qFqodlpW9F/HWFmWUvKJfGUwbleUo2gwZjBkBgNVHREEXTBbgRRvcHNAdmVyaWZpZXIuZXhhbXBsZYYbaHR0cHM6Ly92ZXJpZmllci5leGFtcGxlL2lkghB2ZXJpZmllci5leGFtcGxlghRhbHQudmVyaWZpZXIuZXhhbXBsZTAKBggqhkjOPQQDAgNJADBGAiEA8SrH8R1PjvKh+zzFv3VGdLX1TNSubJ31zjyyXFCt7/MCIQDRckt2glkI8jSlil39ty0CjpHFNi+kSa+vuILP0qyW3w==";
const OTHER: &str = "MIIBMTCB2aADAgECAgID6DAKBggqhkjOPQQDAjAVMRMwEQYDVQQDDApjYS5leGFtcGxlMB4XDTI1MDEwMTAwMDAwMFoXDTQ1MDEwMTAwMDAwMFowFTETMBEGA1UEAwwKY2EuZXhhbXBsZTBZMBMGByqGSM49AgEGCCqGSM49AwEHA0IABAIX5hfwtkQ5KCePlpmeaaI6TywVK99tbN9m5bgCgtTtGUp968uXcS0t2jyoWqh2Wlb0X8dYWZZS8ol8ZTBuV5SjGTAXMBUGA1UdEQQOMAyCCmNhLmV4YW1wbGUwCgYIKoZIzj0EAwIDRwAwRAIgYcBscsenNeMGGU8cBsxf7HVhcwQXzCZ/nspsghj89zwCIFew0LSZmq9YatkFUyRUqIlleNDyFkttmvqrzvyew+fu";
const NOSAN: &str = "MIIBHDCBxKADAgECAgID6DAKBggqhkjOPQQDAjAYMRYwFAYDVQQDDA1ub3Nhbi5leGFtcGxlMB4XDTI1MDEwMTAwMDAwMFoXDTQ1MDEwMTAwMDAwMFowGDEWMBQGA1UEAwwNbm9zYW4uZXhhbXBsZTBZMBMGByqGSM49AgEGCCqGSM49AwEHA0IABAIX5hfwtkQ5KCePlpmeaaI6TywVK99tbN9m5bgCgtTtGUp968uXcS0t2jyoWqh2Wlb0X8dYWZZS8ol8ZTBuV5QwCgYIKoZIzj0EAwIDRwAwRAIgMWSQQeF7IEaXsEGPx5T5Y75ZMMRO4B2uZd9mrx02rfECICbj1/cpcDyGpozgaF+S+S04m4vJ8m28n/Bi+jacyQUM";

fn der(text: &str) -> Vec<u8> {
    BASE64_STANDARD.decode(text).unwrap()
}

fn secret_key() -> p256::SecretKey {
    p256::SecretKey::from_slice(&[0x11u8; 32]).unwrap()
}

fn configuration(x5c: Vec<Vec<u8>>) -> Oid4VpConfig {
    Oid4VpConfig {
        base_url: "https://verifier.example".to_string(),
        client: Client {
            x5c,
            key: secret_key().to_pkcs8_pem(LineEnding::LF).unwrap().to_string(),
        },
        submission_endpoint: "/submit".to_string(),
        reference_endpoint: "/reference".to_string(),
    }
}

#[test]
fn client_id_is_scheme_and_first_dns_name_of_the_leaf() {
    let client = X509SanClient::new(vec![der(LEAF), der(OTHER)], X509SanVariant::Dns).unwrap();
    assert_eq!(client.id(), "x509_san_dns:verifier.example");
    assert_eq!(client.scheme(), "x509_san_dns");
    assert_eq!(client.variant(), X509SanVariant::Dns);
    assert_eq!(client.x5c(), &vec![der(LEAF), der(OTHER)]);
}

#[test]
fn client_id_is_scheme_and_first_uri_of_the_leaf() {
    let client = X509SanClient::new(vec![der(LEAF)], X509SanVariant::Uri).unwrap();
    assert_eq!(client.id(), "x509_san_uri:https://verifier.example/id");
    assert_eq!(client.scheme(), "x509_san_uri");
}

#[test]
fn only_the_leaf_names_the_client() {
    let client = X509SanClient::new(vec![der(OTHER), der(LEAF)], X509SanVariant::Dns).unwrap();
    assert_eq!(client.id(), "x509_san_dns:ca.example");
    let err = X509SanClient::new(vec![der(OTHER), der(LEAF)], X509SanVariant::Uri).unwrap_err();
    assert_eq!(err.step, ClientStep::SubjectAltName);
}

#[test]
fn leaf_without_a_matching_name_is_a_configuration_error() {
    let err = X509SanClient::new(vec![der(NOSAN)], X509SanVariant::Dns).unwrap_err();
    assert_eq!(err.step, ClientStep::SubjectAltName);
    assert_eq!(err.detail, "x509 certificate does not contain Subject Alternative Name");
    let err = X509SanClient::new(vec![vec![0x30, 0x00]], X509SanVariant::Dns).unwrap_err();
    assert_eq!(err.step, ClientStep::Certificate);
}

#[test]
fn select_name_takes_the_first_of_the_configured_kind() {
    let entries = vec![
        SanEntry::Other,
        SanEntry::Uri("urn:a".to_string()),
        SanEntry::Dns("a.example".to_string()),
        SanEntry::Dns("b.example".to_string()),
        SanEntry::Uri("urn:b".to_string()),
    ];
    assert_eq!(select_name(&entries, X509SanVariant::Dns), Some("a.example".to_string()));
    assert_eq!(select_name(&entries, X509SanVariant::Uri), Some("urn:a".to_string()));
    assert_eq!(select_name(&vec![SanEntry::Other], X509SanVariant::Dns), None);
    assert_eq!(select_name(&vec![], X509SanVariant::Uri), None);
    assert_eq!(
        select_name(&vec![SanEntry::Uri("urn:a".to_string())], X509SanVariant::Dns),
        None
    );
}

#[test]
fn signing_input_is_header_dot_payload() {
    let client = X509SanClient::new(vec![der(LEAF), der(OTHER)], X509SanVariant::Dns).unwrap();
    let body = br#"{"client_id":"x509_san_dns:verifier.example"}"#;
    let input = client.generate_request_object_jwt("ES256", body).unwrap();
    let parts: Vec<&str> = input.split('.').collect();
    assert_eq!(parts.len(), 2);
    assert_eq!(BASE64_URL_SAFE_NO_PAD.decode(parts[1]).unwrap(), body.to_vec());
    let header: serde_json::Value =
        serde_json::from_slice(&BASE64_URL_SAFE_NO_PAD.decode(parts[0]).unwrap()).unwrap();
    assert_eq!(header["alg"], "ES256");
    assert_eq!(header["typ"], "oauth-authz-req+jwt");
    assert_eq!(header["x5c"][0], LEAF);
    assert_eq!(header["x5c"][1], OTHER);
    assert_eq!(header["x5c"].as_array().unwrap().len(), 2);
    assert_eq!(header.as_object().unwrap().len(), 3);
}

#[test]
fn token_is_signing_input_dot_signature() {
    let token = make_jwt("aGVhZGVy.cGF5bG9hZA".to_string(), &[0xfb, 0xff, 0x00]);
    assert_eq!(token, "aGVhZGVy.cGF5bG9hZA.-_8A");
    assert_eq!(make_jwt("h.p".to_string(), &[]), "h.p.");
}

#[test]
fn client_signs_exactly_what_is_transmitted() {
    let client = OID4VPClient::new(&configuration(vec![der(LEAF), der(OTHER)])).unwrap();
    assert_eq!(client.id(), "x509_san_dns:verifier.example");
    assert_eq!(client.scheme(), "x509_san_dns");
    let body = br#"{"nonce":"bm9uY2U","response_mode":"dc_api"}"#;
    let token = client.generate_request_object_jwt(body).unwrap();
    let parts: Vec<&str> = token.split('.').collect();
    assert_eq!(parts.len(), 3);
    let header: serde_json::Value =
        serde_json::from_slice(&BASE64_URL_SAFE_NO_PAD.decode(parts[0]).unwrap()).unwrap();
    assert_eq!(header["alg"], "ES256");
    assert_eq!(header["x5c"][0], LEAF);
    assert_eq!(BASE64_URL_SAFE_NO_PAD.decode(parts[1]).unwrap(), body.to_vec());
    let signature = BASE64_URL_SAFE_NO_PAD.decode(parts[2]).unwrap();
    assert_eq!(signature.len(), 64);
    let signature = p256::ecdsa::Signature::from_slice(&signature).unwrap();
    let key = p256::ecdsa::VerifyingKey::from(secret_key().public_key());
    let signed = format!("{}.{}", parts[0], parts[1]);
    assert!(key.verify(signed.as_bytes(), &signature).is_ok());
    assert!(key.verify(parts[1].as_bytes(), &signature).is_err());
    assert_eq!(token, client.generate_request_object_jwt(body).unwrap());
}

#[test]
fn client_needs_a_key_and_a_dns_name() {
    let mut bad_key = configuration(vec![der(LEAF)]);
    bad_key.client.key = "-----BEGIN NOTHING-----".to_string();
    assert_eq!(OID4VPClient::new(&bad_key).unwrap_err().step, ClientStep::SigningKey);
    let no_name = configuration(vec![der(NOSAN)]);
    assert_eq!(OID4VPClient::new(&no_name).unwrap_err().step, ClientStep::SubjectAltName);
}

#[test]
fn empty_chain_is_a_configuration_error() {
    let err = X509SanClient::new(vec![], X509SanVariant::Dns).unwrap_err();
    assert_eq!(err.step, ClientStep::Certificate);
    let err = X509SanClient::new(vec![], X509SanVariant::Uri).unwrap_err();
    assert_eq!(err.step, ClientStep::Certificate);
    assert_eq!(OID4VPClient::new(&configuration(vec![])).unwrap_err().step, ClientStep::Certificate);
    let mut no_key = configuration(vec![]);
    no_key.client.key = String::new();
    assert_eq!(OID4VPClient::new(&no_key).unwrap_err().step, ClientStep::SigningKey);
}
