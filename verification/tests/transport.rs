use tunnel_client::error::ConfigError;
use tunnel_client::transport::{
    ping_frequency, server_port, tls_settings, upgrade_path_prefix, TlsSettings, TransportScheme,
    CONNECT_TIMEOUT_SECS, DEFAULT_PING_FREQUENCY_SECS,
};

#[test]
fn the_four_schemes_of_a_server() {
    assert_eq!(TransportScheme::from_str("ws"), Ok(TransportScheme::Ws));
    assert_eq!(TransportScheme::from_str("wss"), Ok(TransportScheme::Wss));
    assert_eq!(TransportScheme::from_str("http"), Ok(TransportScheme::Http));
    assert_eq!(TransportScheme::from_str("https"), Ok(TransportScheme::Https));
}

#[test]
fn any_other_scheme_is_invalid() {
    for scheme in ["", "w", "WS", "Wss", "ftp", "tcp", "httpss", "ws ", " ws", "wsss", "htt"] {
        assert_eq!(TransportScheme::from_str(scheme), Err(ConfigError::InvalidScheme));
    }
}

#[test]
fn secure_schemes_use_tls_and_port_443() {
    assert!(!TransportScheme::Ws.uses_tls());
    assert!(!TransportScheme::Http.uses_tls());
    assert!(TransportScheme::Wss.uses_tls());
    assert!(TransportScheme::Https.uses_tls());
    assert_eq!(TransportScheme::Ws.default_port(), 80);
    assert_eq!(TransportScheme::Http.default_port(), 80);
    assert_eq!(TransportScheme::Wss.default_port(), 443);
    assert_eq!(TransportScheme::Https.default_port(), 443);
}

#[test]
fn a_named_port_goes_before_the_known_one() {
    assert_eq!(server_port(TransportScheme::Ws, None), 80);
    assert_eq!(server_port(TransportScheme::Wss, None), 443);
    assert_eq!(server_port(TransportScheme::Ws, Some(8080)), 8080);
    assert_eq!(server_port(TransportScheme::Https, Some(80)), 80);
    assert_eq!(server_port(TransportScheme::Http, Some(0)), 0);
}

#[test]
fn plain_schemes_have_no_tls_settings() {
    for scheme in [TransportScheme::Ws, TransportScheme::Http] {
        assert_eq!(
            tls_settings(
                scheme,
                true,
                false,
                Some(String::from("sni.example")),
                Some(String::from("cert.pem")),
                Some(String::from("key.pem"))
            ),
            None
        );
    }
}

#[test]
fn secure_schemes_send_the_server_name_unless_told_not_to() {
    for scheme in [TransportScheme::Wss, TransportScheme::Https] {
        assert_eq!(
            tls_settings(scheme, false, false, None, None, None),
            Some(TlsSettings {
                verify_certificate: false,
                sni_enabled: true,
                sni_override: None,
                certificate_path: None,
                key_path: None,
            })
        );
        assert_eq!(
            tls_settings(
                scheme,
                true,
                true,
                Some(String::from("sni.example")),
                Some(String::from("cert.pem")),
                Some(String::from("key.pem"))
            ),
            Some(TlsSettings {
                verify_certificate: true,
                sni_enabled: false,
                sni_override: Some(String::from("sni.example")),
                certificate_path: Some(String::from("cert.pem")),
                key_path: Some(String::from("key.pem")),
            })
        );
    }
}

#[test]
fn the_default_prefix_gives_way_to_the_common_name() {
    assert_eq!(upgrade_path_prefix(String::from("v1"), Some(String::from("client-7"))), "client-7");
    assert_eq!(upgrade_path_prefix(String::from("v1"), None), "v1");
}

#[test]
fn a_chosen_prefix_is_kept() {
    assert_eq!(upgrade_path_prefix(String::from("v2"), Some(String::from("client-7"))), "v2");
    assert_eq!(upgrade_path_prefix(String::from("V1"), Some(String::from("client-7"))), "V1");
    assert_eq!(upgrade_path_prefix(String::from("v1/"), Some(String::from("client-7"))), "v1/");
    assert_eq!(upgrade_path_prefix(String::from(""), Some(String::from("client-7"))), "");
    assert_eq!(upgrade_path_prefix(String::from("secret"), None), "secret");
}

#[test]
fn pings_go_every_thirty_seconds_by_default() {
    assert_eq!(DEFAULT_PING_FREQUENCY_SECS, 30);
    assert_eq!(ping_frequency(None), Some(30));
}

#[test]
fn a_ping_frequency_of_zero_switches_pings_off() {
    assert_eq!(ping_frequency(Some(0)), None);
}

#[test]
fn a_positive_ping_frequency_is_kept() {
    assert_eq!(ping_frequency(Some(1)), Some(1));
    assert_eq!(ping_frequency(Some(45)), Some(45));
    assert_eq!(ping_frequency(Some(u64::MAX)), Some(u64::MAX));
}

#[test]
fn connecting_may_take_ten_seconds() {
    assert_eq!(CONNECT_TIMEOUT_SECS, 10);
}

#[test]
fn every_refusal_says_why() {
    assert_eq!(ConfigError::InvalidScheme.message(), "invalid scheme in server url");
    assert_eq!(ConfigError::MissingHost.message(), "no host in server url");
    assert_eq!(ConfigError::InvalidHostHeader.message(), "failed to parse header value");
    assert_eq!(ConfigError::InvalidProxyUrl.message(), "Invalid http proxy url");
    assert_eq!(ConfigError::CannotSetProxyLogin.message(), "Cannot set http proxy login");
    assert_eq!(ConfigError::CannotSetProxyPassword.message(), "Cannot set http proxy password");
    assert_eq!(
        ConfigError::UnixSocketUnavailable.message(),
        "Unix socket is not available for non Unix platform"
    );
    assert_eq!(
        ConfigError::TransparentProxyUnavailable.message(),
        "Transparent proxy is not available for non Linux platform"
    );
}
