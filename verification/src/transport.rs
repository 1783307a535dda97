//! What the transport to the server is set up with, worked out from the
//! configuration of the client.

use vstd::prelude::*;
use crate::error::ConfigError;
use crate::headers::Header;
use crate::text::{same_text, text_of};

verus! {

/// How the server is spoken to.
#[derive(Clone, Copy, Debug, PartialEq, Eq, Structural)]
pub enum TransportScheme {
    /// WebSocket without TLS.
    Ws,
    /// WebSocket over TLS.
    Wss,
    /// HTTP/2 without TLS.
    Http,
    /// HTTP/2 over TLS.
    Https,
}

/// The transport that a URL scheme stands for. Only `ws`, `wss`, `http` and
/// `https` are schemes of a server, written in lower case.
pub open spec fn scheme_of(text: Seq<char>) -> Option<TransportScheme> {
    if text == seq!['w', 's'] {
        Some(TransportScheme::Ws)
    } else if text == seq!['w', 's', 's'] {
        Some(TransportScheme::Wss)
    } else if text == seq!['h', 't', 't', 'p'] {
        Some(TransportScheme::Http)
    } else if text == seq!['h', 't', 't', 'p', 's'] {
        Some(TransportScheme::Https)
    } else {
        None
    }
}

impl TransportScheme {
    /// The transport runs over TLS.
    pub open spec fn is_secure(self) -> bool {
        self == TransportScheme::Wss || self == TransportScheme::Https
    }

    /// The port that a server listens on when its address names none.
    pub open spec fn known_port(self) -> u16 {
        if self.is_secure() {
            443
        } else {
            80
        }
    }

    /// Reads the scheme of a server address.
    pub fn from_str(text: &str) -> (r: Result<TransportScheme, ConfigError>)
        ensures
            match scheme_of(text@) {
                Some(scheme) => r == Ok::<TransportScheme, ConfigError>(scheme),
                None => r == Err::<TransportScheme, ConfigError>(ConfigError::InvalidScheme),
            },
    {
        proof {
            reveal_strlit("ws");
            reveal_strlit("wss");
            reveal_strlit("http");
            reveal_strlit("https");
            assert("ws"@ =~= seq!['w', 's']);
            assert("wss"@ =~= seq!['w', 's', 's']);
            assert("http"@ =~= seq!['h', 't', 't', 'p']);
            assert("https"@ =~= seq!['h', 't', 't', 'p', 's']);
        }
        if same_text(text, "ws") {
            Ok(TransportScheme::Ws)
        } else if same_text(text, "wss") {
            Ok(TransportScheme::Wss)
        } else if same_text(text, "http") {
            Ok(TransportScheme::Http)
        } else if same_text(text, "https") {
            Ok(TransportScheme::Https)
        } else {
            Err(ConfigError::InvalidScheme)
        }
    }

    /// Tells whether the transport runs over TLS.
    #[verifier::when_used_as_spec(is_secure)]
    pub fn uses_tls(self) -> (r: bool)
        ensures
            r == self.is_secure(),
    {
        match self {
            TransportScheme::Ws => false,
            TransportScheme::Http => false,
            TransportScheme::Wss => true,
            TransportScheme::Https => true,
        }
    }

    /// The port that a server listens on when its address names none.
    #[verifier::when_used_as_spec(known_port)]
    pub fn default_port(self) -> (r: u16)
        ensures
            r == self.known_port(),
    {
        if self.uses_tls() {
            443
        } else {
            80
        }
    }
}

/// The address of the server as its URL gives it.
#[derive(Clone, Debug, PartialEq, Eq)]
pub struct ServerAddr {
    pub scheme: String,
    /// The host as the URL writes it, an IPv6 address in square brackets.
    pub host: Option<String>,
    /// The port, where the URL names one.
    pub port: Option<u16>,
}

/// How TLS is spoken with the server.
#[derive(Clone, Debug, PartialEq, Eq)]
pub struct TlsSettings {
    pub verify_certificate: bool,
    /// The server name is sent in the handshake.
    pub sni_enabled: bool,
    /// The server name to send in place of the host of the server.
    pub sni_override: Option<String>,
    /// Where the certificate of the client lies, if it has one.
    pub certificate_path: Option<String>,
    /// Where the private key of the client lies, if it has one.
    pub key_path: Option<String>,
}

/// The TLS settings of a transport: none for a plain one; for a secure one
/// the settings of the configuration, with the server name sent unless the
/// configuration switches that off.
pub open spec fn tls_of(
    scheme: TransportScheme,
    verify_certificate: bool,
    sni_disable: bool,
    sni_override: Option<String>,
    certificate_path: Option<String>,
    key_path: Option<String>,
) -> Option<TlsSettings> {
    if scheme.is_secure() {
        Some(
            TlsSettings {
                verify_certificate,
                sni_enabled: !sni_disable,
                sni_override,
                certificate_path,
                key_path,
            },
        )
    } else {
        None
    }
}

/// Works out the TLS settings of a transport.
pub fn tls_settings(
    scheme: TransportScheme,
    verify_certificate: bool,
    sni_disable: bool,
    sni_override: Option<String>,
    certificate_path: Option<String>,
    key_path: Option<String>,
) -> (r: Option<TlsSettings>)
    ensures
        r == tls_of(
            scheme,
            verify_certificate,
            sni_disable,
            sni_override,
            certificate_path,
            key_path,
        ),
{
    if scheme.uses_tls() {
        Some(
            TlsSettings {
                verify_certificate,
                sni_enabled: !sni_disable,
                sni_override,
                certificate_path,
                key_path,
            },
        )
    } else {
        None
    }
}

/// A server address with scheme `ws` or `http` gives a transport without
/// TLS. One with scheme `wss` or `https` gives a transport with TLS, which
/// sends the server name unless the configuration switches that off, and
/// which keeps every other setting as the configuration has it.
pub proof fn lemma_tls_follows_scheme(
    verify_certificate: bool,
    sni_disable: bool,
    sni_override: Option<String>,
    certificate_path: Option<String>,
    key_path: Option<String>,
)
    ensures
        scheme_of(seq!['w', 's']) == Some(TransportScheme::Ws),
        scheme_of(seq!['w', 's', 's']) == Some(TransportScheme::Wss),
        scheme_of(seq!['h', 't', 't', 'p']) == Some(TransportScheme::Http),
        scheme_of(seq!['h', 't', 't', 'p', 's']) == Some(TransportScheme::Https),
        forall|scheme: TransportScheme|
            scheme == TransportScheme::Ws || scheme == TransportScheme::Http ==> #[trigger] tls_of(
                scheme,
                verify_certificate,
                sni_disable,
                sni_override,
                certificate_path,
                key_path,
            ) is None,
        forall|scheme: TransportScheme|
            scheme == TransportScheme::Wss || scheme == TransportScheme::Https
                ==> #[trigger] tls_of(
                scheme,
                verify_certificate,
                sni_disable,
                sni_override,
                certificate_path,
                key_path,
            ) == Some(
                TlsSettings {
                    verify_certificate,
                    sni_enabled: !sni_disable,
                    sni_override,
                    certificate_path,
                    key_path,
                },
            ),
{
    assert(seq!['w', 's', 's'].len() == 3);
    assert(seq!['h', 't', 't', 'p', 's'].len() == 5);
}

/// The port of the server: the one that its address names, else the port
/// that its scheme is known by.
pub open spec fn server_port_of(scheme: TransportScheme, port: Option<u16>) -> u16 {
    match port {
        Some(port) => port,
        None => scheme.known_port(),
    }
}

/// Settles the port of the server.
pub fn server_port(scheme: TransportScheme, port: Option<u16>) -> (r: u16)
    ensures
        r == server_port_of(scheme, port),
{
    match port {
        Some(port) => port,
        None => scheme.default_port(),
    }
}

/// The path prefix that stands for "none was chosen".
pub open spec fn default_upgrade_path_prefix() -> Seq<char> {
    seq!['v', '1']
}

/// The path prefix of the upgrade request. A client that presents a
/// certificate and chose no prefix of its own is routed by the common name
/// of its certificate.
pub open spec fn upgrade_path_prefix_of(prefix: Seq<char>, certificate_cn: Option<Seq<char>>) -> Seq<
    char,
> {
    match certificate_cn {
        Some(common_name) if prefix == default_upgrade_path_prefix() => common_name,
        _ => prefix,
    }
}

/// Settles the path prefix of the upgrade request. `certificate_cn` is the
/// common name of the certificate that the client presents, if it presents
/// one that has a common name.
pub fn upgrade_path_prefix(prefix: String, certificate_cn: Option<String>) -> (r: String)
    ensures
        r@ == upgrade_path_prefix_of(prefix@, text_of(certificate_cn)),
{
    proof {
        reveal_strlit("v1");
        assert("v1"@ =~= default_upgrade_path_prefix());
    }
    match certificate_cn {
        Some(common_name) => {
            if same_text(prefix.as_str(), "v1") {
                common_name
            } else {
                prefix
            }
        },
        None => prefix,
    }
}

/// How often the server is pinged when the configuration does not say, in
/// seconds.
pub const DEFAULT_PING_FREQUENCY_SECS: u64 = 30;

/// How long a connection attempt to the server may take, in seconds.
pub const CONNECT_TIMEOUT_SECS: u64 = 10;

/// How often the server is pinged, in seconds: as often as the configuration
/// asks, every [`DEFAULT_PING_FREQUENCY_SECS`] where it does not say, and
/// never where it asks for zero.
pub open spec fn ping_frequency_of(requested: Option<u64>) -> Option<u64> {
    match requested {
        None => Some(DEFAULT_PING_FREQUENCY_SECS),
        Some(secs) => if secs > 0 {
            Some(secs)
        } else {
            None
        },
    }
}

/// Settles how often the server is pinged.
pub fn ping_frequency(requested: Option<u64>) -> (r: Option<u64>)
    ensures
        r == ping_frequency_of(requested),
{
    match requested {
        None => Some(DEFAULT_PING_FREQUENCY_SECS),
        Some(secs) => if secs > 0 {
            Some(secs)
        } else {
            None
        },
    }
}

/// Everything the transport to the server is set up with. Nothing changes
/// it once it is made; the tasks of all tunnels share it.
#[derive(Clone, Debug, PartialEq, Eq)]
pub struct TransportConfig {
    pub scheme: TransportScheme,
    pub host: String,
    pub port: u16,
    pub tls: Option<TlsSettings>,
    pub socket_so_mark: Option<u32>,
    pub http_upgrade_path_prefix: String,
    pub http_upgrade_credentials: Option<Vec<u8>>,
    /// The headers of the upgrade request, the Host header not among them.
    pub http_headers: Vec<Header>,
    pub http_headers_file: Option<String>,
    /// The value of the Host header.
    pub http_header_host: Vec<u8>,
    pub timeout_connect_sec: u64,
    pub websocket_ping_frequency_sec: Option<u64>,
    pub websocket_mask_frame: bool,
    pub dns_resolver: Vec<String>,
    pub dns_resolver_prefer_ipv6: bool,
    pub http_proxy: Option<String>,
    pub connection_min_idle: u32,
    pub connection_retry_max_backoff_sec: u64,
}

} // verus!
