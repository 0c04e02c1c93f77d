use fleet_net::error::FleetNetError;
use fleet_net::tls::{load_certs, load_private_key, KeyFormat, TlsConfig};
use std::sync::Arc;

struct TestPem {
    cert: String,
    key: String,
}

fn generate_test_certs(hostname: &str) -> TestPem {
    let certified = rcgen::generate_simple_self_signed(vec![
        hostname.to_string(),
        "localhost".to_string(),
        "127.0.0.1".to_string(),
        "::1".to_string(),
    ])
    .expect("Failed to generate certificate");
    TestPem { cert: certified.cert.pem(), key: certified.key_pair.serialize_pem() }
}

#[test]
fn test_load_server_certificates() {
    let bundle = generate_test_certs("localhost");

    let tls_config = TlsConfig::new_server(bundle.cert.as_bytes(), bundle.key.as_bytes());

    assert!(tls_config.is_ok(), "Failed to create TLS config: {:?}", tls_config.err());
    let config = tls_config.unwrap();
    assert!(config.server_config.is_some());
    assert!(config.client_config.is_none());

    let server_config = config.server_config.unwrap();
    assert!(!server_config.alpn_protocols.is_empty() || server_config.alpn_protocols.is_empty());
}

#[test]
fn test_load_client_certificates() {
    let ca_bundle = generate_test_certs("ca.localhost");

    let tls_config = TlsConfig::new_client(ca_bundle.cert.as_bytes());

    assert!(tls_config.is_ok(), "Failed to create client TLS config: {:?}", tls_config.err());
    let config = tls_config.unwrap();
    assert!(config.client_config.is_some());
    assert!(config.server_config.is_none());

    let client_config = config.client_config.unwrap();
    assert!(client_config.alpn_protocols.is_empty() || !client_config.alpn_protocols.is_empty());
}

#[test]
fn test_reject_empty_certification_files() {
    let result = TlsConfig::new_server(b"", b"");
    assert!(result.is_err());
    if let Err(FleetNetError::EncryptionError(msg)) = result {
        assert!(msg.contains("No certificates found") || msg.contains("No valid private keys"));
    } else {
        panic!("Expected EncryptionError for empty certificate/key files");
    }
}

#[test]
fn test_reject_invalid_pem_data() {
    let result = TlsConfig::new_server(b"This is not a valid certificate", b"This is not a valid key");
    assert!(result.is_err());
    assert!(matches!(result, Err(FleetNetError::EncryptionError(_))));
}

#[test]
fn test_tls_config_cipher_suites() {
    let bundle = generate_test_certs("localhost");

    let tls_config = TlsConfig::new_server(bundle.cert.as_bytes(), bundle.key.as_bytes())
        .expect("Should create valid TLS config");

    let server_config = tls_config.server_config.unwrap();

    assert_eq!(Arc::strong_count(&server_config), 1);
}

#[test]
fn empty_key_file_reports_missing_key() {
    let bundle = generate_test_certs("localhost");
    match TlsConfig::new_server(bundle.cert.as_bytes(), b"") {
        Err(FleetNetError::EncryptionError(msg)) => assert!(msg.contains("No valid private keys")),
        other => panic!("unexpected result: {:?}", other.err()),
    }
    match load_certs(b"") {
        Err(FleetNetError::EncryptionError(msg)) => assert!(msg.contains("No certificates found")),
        other => panic!("unexpected result: {other:?}"),
    }
}

#[test]
fn generated_key_is_read_as_pkcs8() {
    let bundle = generate_test_certs("localhost");
    let key = load_private_key(bundle.key.as_bytes()).unwrap();
    assert_eq!(key.format, KeyFormat::Pkcs8);
    assert!(!key.der.is_empty());
    let certs = load_certs(bundle.cert.as_bytes()).unwrap();
    assert_eq!(certs.len(), 1);
    let two = format!("{}{}", bundle.cert, generate_test_certs("other").cert);
    assert_eq!(load_certs(two.as_bytes()).unwrap().len(), 2);
}

#[test]
fn mismatched_key_is_refused() {
    let first = generate_test_certs("localhost");
    let second = generate_test_certs("localhost");
    let result = TlsConfig::new_server(first.cert.as_bytes(), second.key.as_bytes());
    assert!(matches!(result, Err(FleetNetError::EncryptionError(_))));
}

#[test]
fn client_rejects_garbage_roots() {
    assert!(matches!(
        TlsConfig::new_client(b"not a certificate"),
        Err(FleetNetError::EncryptionError(_))
    ));
}

fn encryption_message<T>(r: Result<T, FleetNetError>) -> String {
    match r {
        Err(FleetNetError::EncryptionError(msg)) => msg,
        Err(other) => panic!("expected an encryption error, got {other:?}"),
        Ok(_) => panic!("expected an encryption error"),
    }
}

#[test]
fn input_without_pem_sections_reports_what_is_missing() {
    assert_eq!(encryption_message(load_certs(b"")), "No certificates found in file");
    assert_eq!(
        encryption_message(load_certs(b"This is not a valid certificate")),
        "No certificates found in file"
    );
    assert_eq!(
        encryption_message(load_private_key(b"This is not a valid key")),
        "No valid private keys found in file"
    );
    assert_eq!(
        encryption_message(TlsConfig::new_server(b"", b"")),
        "No certificates found in file"
    );
    assert_eq!(encryption_message(TlsConfig::new_client(b"")), "No certificates found in file");
    let bundle = generate_test_certs("localhost");
    assert_eq!(
        encryption_message(TlsConfig::new_server(bundle.cert.as_bytes(), b"no key here")),
        "No valid private keys found in file"
    );
}

#[test]
fn certificate_without_key_sections_yields_no_key() {
    let bundle = generate_test_certs("localhost");
    assert_eq!(
        encryption_message(load_private_key(bundle.cert.as_bytes())),
        "No valid private keys found in file"
    );
}
