use secular_core::config::{SecularConfig, ServerConfig};
use secular_core::error::SecularError;
use secular_core::protocol::{state_code, ConnectionState, SecularEngine, TunnelPath};
use secular_core::utls::FingerprintProfile;

fn test_config() -> SecularConfig {
    SecularConfig {
        server: ServerConfig {
            host: "127.0.0.1".into(),
            port: 18443,
            sni: "test.local".into(),
            auth_token: "test-token-123".into(),
        },
        ..Default::default()
    }
}

#[test]
fn test_engine_new() {
    let config = test_config();
    let engine = SecularEngine::new(config);
    assert!(engine.is_ok());
}

#[test]
fn test_engine_validate_empty_host() {
    let config = SecularConfig {
        server: ServerConfig {
            host: "".into(),
            ..Default::default()
        },
        ..Default::default()
    };
    let engine = SecularEngine::new(config);
    assert!(engine.is_err());
}

#[test]
fn test_engine_validate_empty_token() {
    let config = SecularConfig {
        server: ServerConfig {
            host: "test.local".into(),
            auth_token: "".into(),
            ..Default::default()
        },
        ..Default::default()
    };
    let engine = SecularEngine::new(config);
    assert!(engine.is_err());
}

#[test]
fn validation_messages_in_order() {
    let mut c = test_config();
    c.server.host = String::new();
    c.server.sni = String::new();
    assert_eq!(c.validate(), Err("Server host is required".to_string()));
    let mut c = test_config();
    c.server.sni = String::new();
    c.server.port = 0;
    assert_eq!(c.validate(), Err("SNI hostname is required".to_string()));
    let mut c = test_config();
    c.server.auth_token = String::new();
    assert_eq!(c.validate(), Err("Auth token is required".to_string()));
    let mut c = test_config();
    c.server.port = 0;
    assert_eq!(c.validate(), Err("Invalid port".to_string()));
    match SecularEngine::new(c) {
        Err(SecularError::InvalidConfig(m)) => assert_eq!(m, "Invalid port"),
        _ => panic!("expected an invalid configuration"),
    }
}

#[test]
fn default_config_values() {
    let c = SecularConfig::default();
    assert_eq!(c.server.port, 443);
    assert_eq!(c.dns_resolver, "9.9.9.9");
    assert!(!c.allow_ipv6);
    assert_eq!(c.mtu, 0);
    assert!(c.enable_utls);
    assert!(c.kill_switch);
    assert_eq!(c.protocol, "h2");
    assert!(c.validate().is_err());
}

#[test]
fn connect_plan_over_http2() {
    let mut e = SecularEngine::new(test_config()).unwrap();
    let plan = e.begin_connect();
    assert_eq!(e.state(), ConnectionState::Handshaking);
    assert_eq!(plan.address, "127.0.0.1:18443");
    assert_eq!(plan.path, TunnelPath::Http2);
    assert_eq!(plan.sni, "test.local");
    assert_eq!(plan.host, "127.0.0.1");
    assert_eq!(plan.auth_token, "test-token-123");
    // No tunnel yet: packets are refused while handshaking.
    assert!(matches!(e.send_packet(&[1, 2, 3]), Err(SecularError::NotConnected)));
}

#[test]
fn connect_plan_over_quic_fails() {
    let mut c = test_config();
    c.protocol = "quic".into();
    let mut e = SecularEngine::new(c).unwrap();
    let plan = e.begin_connect();
    assert_eq!(plan.path, TunnelPath::Quic);
    assert!(matches!(e.connect_quic(), Err(SecularError::QuicNotImplemented)));
    assert_eq!(e.state(), ConnectionState::Handshaking);
}

#[test]
fn packets_flow_only_with_tunnel() {
    let mut e = SecularEngine::new(test_config()).unwrap();
    let mut buf = [7u8; 4];
    assert!(e.send_packet(&[1]).is_err());
    assert!(e.recv_packet(&mut buf).is_err());
    e.begin_connect();
    e.h2_connected("127.0.0.1", "test.local");
    assert_eq!(e.state(), ConnectionState::Connected);
    assert!(e.send_packet(&[1]).is_ok());
    assert_eq!(e.recv_packet(&mut buf).unwrap(), 0);
    assert_eq!(buf, [7u8; 4]);
    // Reconnecting keeps the established tunnel until the attempt ends.
    e.begin_connect();
    assert_eq!(e.state(), ConnectionState::Handshaking);
    assert!(e.send_packet(&[1]).is_ok());
    assert!(e.disconnect().is_ok());
    assert_eq!(e.state(), ConnectionState::Disconnected);
    assert!(matches!(e.send_packet(&[1]), Err(SecularError::NotConnected)));
    assert_eq!(e.config().server.host, "127.0.0.1");
}

#[test]
fn tls_plan_alpn_and_fingerprint() {
    let e = SecularEngine::new(test_config()).unwrap();
    let p = e.tls_plan();
    assert_eq!(p.alpn, vec![b"h2".to_vec(), b"http/1.1".to_vec()]);
    assert!(matches!(
        p.fingerprint,
        Some(FingerprintProfile::Chrome | FingerprintProfile::Firefox | FingerprintProfile::Safari | FingerprintProfile::Edge)
    ));
    let mut c = test_config();
    c.enable_utls = false;
    let e = SecularEngine::new(c).unwrap();
    assert!(e.tls_plan().fingerprint.is_none());
}

#[test]
fn auth_request_parts() {
    let r = SecularEngine::auth_request("vpn.example.com", "tok\"en", "linux");
    assert_eq!(r.method, "POST");
    assert_eq!(r.uri, "https://vpn.example.com/api/v1/auth");
    assert_eq!(r.content_type, "application/json");
    assert_eq!(r.user_agent, "Secular/0.1.0");
    assert_eq!(r.body, "{\"platform\":\"linux\",\"token\":\"tok\\\"en\",\"version\":\"0.1.0\"}");
}

#[test]
fn auth_body_escaping() {
    let r = SecularEngine::auth_request("h", "a\u{1}\n\t\r\u{8}\u{c}\\/\u{1f}\u{7f}é", "mac\"os");
    assert_eq!(
        r.body,
        "{\"platform\":\"mac\\\"os\",\"token\":\"a\\u0001\\n\\t\\r\\b\\f\\\\/\\u001f\u{7f}é\",\"version\":\"0.1.0\"}"
    );
}

#[test]
fn auth_status_decision() {
    assert!(SecularEngine::check_auth_status(200).is_ok());
    assert!(SecularEngine::check_auth_status(204).is_ok());
    assert!(SecularEngine::check_auth_status(299).is_ok());
    assert!(matches!(SecularEngine::check_auth_status(199), Err(SecularError::AuthRejected(199))));
    assert!(matches!(SecularEngine::check_auth_status(300), Err(SecularError::AuthRejected(300))));
    let e = SecularEngine::check_auth_status(401).unwrap_err();
    assert_eq!(e.message(), "Server rejected auth token: HTTP 401 Unauthorized");
    let e = SecularEngine::check_auth_status(404).unwrap_err();
    assert_eq!(e.message(), "Server rejected auth token: HTTP 404 Not Found");
    let e = SecularEngine::check_auth_status(599).unwrap_err();
    assert_eq!(e.message(), "Server rejected auth token: HTTP 599 <unknown status code>");
}

#[test]
fn error_messages() {
    assert_eq!(SecularError::TunNotUp.message(), "TUN interface is not up");
    assert_eq!(SecularError::UnsupportedPlatform.message(), "Unsupported platform");
    assert_eq!(SecularError::NotConnected.message(), "Not connected");
    assert_eq!(SecularError::QuicNotImplemented.message(), "QUIC protocol not yet implemented");
    assert_eq!(SecularError::InvalidConfig("x".into()).message(), "x");
}

#[test]
fn state_codes() {
    assert_eq!(state_code(ConnectionState::Disconnected), 0);
    assert_eq!(state_code(ConnectionState::Handshaking), 1);
    assert_eq!(state_code(ConnectionState::Connected), 2);
    assert_eq!(state_code(ConnectionState::Failed), 3);
}
