//! Configuration resolution: present values are kept, absent fields and
//! absent sections take their documented defaults.

use dash_server::config::{
    def_allow_origin, def_connection_timeout_millis, def_ipv4_addr, def_ipv4_port, def_network,
    def_performance, def_security, def_ssl_cert_path, def_ssl_private_key_path,
    def_thread_pool_size, resolve_config, resolve_network, true_value, ConfigParts, NetworkParts,
    PerformanceParts, SecurityParts,
};

#[test]
fn default_values() {
    assert_eq!(def_ipv4_addr(), "0.0.0.0");
    assert_eq!(def_ipv4_port(), "443");
    assert_eq!(def_allow_origin(), "*");
    assert_eq!(def_thread_pool_size(), 4);
    assert_eq!(def_connection_timeout_millis(), 30000);
    assert!(true_value());
    assert_eq!(def_ssl_cert_path(), "cert.pem");
    assert_eq!(def_ssl_private_key_path(), "private.pem");
}

#[test]
fn default_sections() {
    let network = def_network();
    assert_eq!(network.address, "0.0.0.0");
    assert_eq!(network.port, "443");
    assert_eq!(network.allow_origin, "*");
    let performance = def_performance();
    assert_eq!(performance.thread_pool_size, 4);
    assert_eq!(performance.connection_timeout_millis, 30000);
    let security = def_security();
    assert!(security.https);
    assert_eq!(security.certificate_file, "cert.pem");
    assert_eq!(security.private_key_file, "private.pem");
}

#[test]
fn full_config_keeps_every_value() {
    let parts = ConfigParts {
        network: Some(NetworkParts {
            address: Some("127.0.0.1".to_string()),
            port: Some("9443".to_string()),
            allow_origin: Some("255.255.255.1".to_string()),
        }),
        performance: Some(PerformanceParts {
            thread_pool_size: Some(123),
            connection_timeout_millis: Some(321400),
        }),
        security: Some(SecurityParts {
            https: Some(false),
            certificate_file: Some("cert_test_path.pem".to_string()),
            private_key_file: Some("private_test_path.pem".to_string()),
        }),
    };
    let config = resolve_config(parts);
    assert_eq!(config.network.address, "127.0.0.1");
    assert_eq!(config.network.port, "9443");
    assert_eq!(config.network.allow_origin, "255.255.255.1");
    assert_eq!(config.performance.thread_pool_size, 123);
    assert_eq!(config.performance.connection_timeout_millis, 321400);
    assert!(!config.security.https);
    assert_eq!(config.security.certificate_file, "cert_test_path.pem");
    assert_eq!(config.security.private_key_file, "private_test_path.pem");
}

#[test]
fn empty_document_resolves_to_defaults() {
    let parts = ConfigParts { network: None, performance: None, security: None };
    let config = resolve_config(parts);
    assert_eq!(config.network.address, "0.0.0.0");
    assert_eq!(config.network.port, "443");
    assert_eq!(config.network.allow_origin, "*");
    assert_eq!(config.performance.thread_pool_size, 4);
    assert_eq!(config.performance.connection_timeout_millis, 30000);
    assert!(config.security.https);
    assert_eq!(config.security.certificate_file, "cert.pem");
    assert_eq!(config.security.private_key_file, "private.pem");
}

#[test]
fn partial_section_mixes_given_and_default() {
    let network = resolve_network(NetworkParts {
        address: None,
        port: Some("8443".to_string()),
        allow_origin: None,
    });
    assert_eq!(network.address, "0.0.0.0");
    assert_eq!(network.port, "8443");
    assert_eq!(network.allow_origin, "*");
}
