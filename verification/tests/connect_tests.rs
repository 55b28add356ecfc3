//! The connect phase: error propagation and the assembled state.

use ntske_core::config::{KeServerConfig, MetricsConfig};
use ntske_core::errors::{ConnectError, RotateError};
use ntske_core::rotator::{KeyRotator, RotatorKey};
use ntske_core::server::{KeServer, StartAction, StartEvent, StartPhase};

fn valid_identity() -> (Vec<Vec<u8>>, Vec<u8>) {
    let ck = rcgen::generate_simple_self_signed(vec!["localhost".to_string()]).unwrap();
    let cert = ck.cert.der().to_vec();
    let key = ck.key_pair.serialize_der();
    (vec![cert], key)
}

fn config_with(certs: Vec<Vec<u8>>, keys: Vec<Vec<u8>>, addrs: Vec<String>) -> KeServerConfig {
    KeServerConfig::new(
        certs,
        keys,
        123,
        None,
        addrs,
        vec![7u8; 32],
        "127.0.0.1:11211".to_string(),
        5000,
    )
}

fn initial_rotator() -> KeyRotator {
    KeyRotator {
        keys: vec![RotatorKey { key_id: 1, material: vec![0xaa; 32] }],
        latest_key_id: 1,
    }
}

#[test]
fn scenario_rotator_failure_is_propagated_unchanged() {
    let (certs, key) = valid_identity();
    let config = config_with(certs, vec![key], Vec::new());
    let r = KeServer::connect(config, Err(RotateError::StoreConnectivity));
    match r {
        Err(e) => assert_eq!(e, ConnectError::Rotate(RotateError::StoreConnectivity)),
        Ok(_) => panic!("connect must fail when the rotator did"),
    }
}

#[test]
fn missing_private_key_is_its_own_error() {
    let (certs, _key) = valid_identity();
    let config = config_with(certs, Vec::new(), Vec::new());
    let r = KeServer::connect(config, Ok(initial_rotator()));
    match r {
        Err(e) => assert_eq!(e, ConnectError::NoPrivateKey),
        Ok(_) => panic!("connect must fail without a private key"),
    }
}

#[test]
fn unusable_private_key_is_rejected() {
    let (certs, _key) = valid_identity();
    let config = config_with(certs, vec![vec![0u8; 10]], Vec::new());
    let r = KeServer::connect(config, Ok(initial_rotator()));
    match r {
        Err(e) => assert_eq!(e, ConnectError::InvalidPrivateKey),
        Ok(_) => panic!("connect must reject a garbage key"),
    }
}

#[test]
fn successful_connect_pins_the_state() {
    let (certs, key) = valid_identity();
    let addrs = vec!["127.0.0.1:4460".to_string()];
    let config = config_with(certs.clone(), vec![key.clone()], addrs.clone());
    let server = KeServer::connect(config, Ok(initial_rotator())).unwrap();
    let state = server.state();
    assert_eq!(state.config().tls_certs, certs);
    assert_eq!(state.config().tls_secret_keys, vec![key]);
    assert_eq!(state.config().addrs(), &addrs);
    assert_eq!(state.config().memcached_url(), "127.0.0.1:11211");
    assert_eq!(state.config().cookie_key(), &vec![7u8; 32]);
    assert_eq!(state.config().timeout(), 5000);
    assert_eq!(state.config().next_port, 123);
}

#[test]
fn shared_tls_handles_observe_construction_values() {
    let (certs, key) = valid_identity();
    let config = config_with(certs, vec![key], Vec::new());
    let server = KeServer::connect(config, Ok(initial_rotator())).unwrap();
    // Several simulated listener workers, each with its own handle: every
    // one observes the fixed policy built at connect time.
    let handles = vec![
        server.state().share_tls_config(),
        server.state().share_tls_config(),
        server.state().share_tls_config(),
    ];
    for h in &handles {
        assert_eq!(h.versions(), &vec![0x0304u16]);
        assert_eq!(h.alpn_protocols(), &vec![b"ntske/1".to_vec()]);
        assert!(!h.client_auth_enabled());
    }
}

#[test]
fn start_reflects_the_configuration() {
    let (certs, key) = valid_identity();
    let addrs = vec!["127.0.0.1:4460".to_string(), "127.0.0.1:4461".to_string()];
    let metrics = Some(MetricsConfig { addr: "127.0.0.1".to_string(), port: 9100 });
    let config = KeServerConfig::new(
        certs,
        vec![key],
        123,
        metrics,
        addrs,
        vec![7u8; 32],
        "127.0.0.1:11211".to_string(),
        5000,
    );
    let mut server = KeServer::connect(config, Ok(initial_rotator())).unwrap();
    let mut m = server.start();
    assert_eq!(m.current_phase(), StartPhase::RotationPending);
    m.apply(StartEvent::RotationStarted);
    assert_eq!(m.current_phase(), StartPhase::TelemetryPending);
    m.apply(StartEvent::TelemetrySpawned);
    assert_eq!(
        m.next_action(),
        StartAction::SetupListener("127.0.0.1:4460".to_string())
    );
}
