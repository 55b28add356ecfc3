//! The TLS configuration builder and its fixed policy.

use ntske_core::errors::TlsConfigError;
use ntske_core::tls::{ntske_alpn_protocol, TlsServerConfig, TLS13_CODE};

#[test]
fn alpn_identifier_is_the_ntske_string() {
    assert_eq!(ntske_alpn_protocol(), b"ntske/1".to_vec());
}

#[test]
fn garbage_key_is_rejected() {
    let certs = vec![vec![0u8; 16]];
    let key = vec![0u8; 16];
    match TlsServerConfig::build(&certs, &key) {
        Err(e) => assert_eq!(e, TlsConfigError::InvalidPrivateKey),
        Ok(_) => panic!("a garbage key must not build an identity"),
    }
}

#[test]
fn empty_key_is_rejected() {
    let certs: Vec<Vec<u8>> = Vec::new();
    let key: Vec<u8> = Vec::new();
    assert!(TlsServerConfig::build(&certs, &key).is_err());
}

#[test]
fn valid_key_builds_the_fixed_policy() {
    let ck = rcgen::generate_simple_self_signed(vec!["localhost".to_string()]).unwrap();
    let certs = vec![ck.cert.der().to_vec()];
    let key = ck.key_pair.serialize_der();
    let tls = TlsServerConfig::build(&certs, &key).unwrap();
    // Exactly one protocol version, TLS 1.3.
    assert_eq!(tls.versions(), &vec![TLS13_CODE]);
    assert_eq!(TLS13_CODE, 0x0304);
    // Exactly one application protocol, ntske/1.
    assert_eq!(tls.alpn_protocols(), &vec![b"ntske/1".to_vec()]);
    // No client certificate authentication.
    assert!(!tls.client_auth_enabled());
    // The given identity, as given.
    assert_eq!(tls.cert_chain(), &certs);
    assert_eq!(tls.private_key(), &key);
    // The underlying configuration mirrors the policy.
    assert_eq!(tls.inner().versions, vec![rustls::ProtocolVersion::TLSv1_3]);
    assert_eq!(tls.inner().alpn_protocols, vec![b"ntske/1".to_vec()]);
}
