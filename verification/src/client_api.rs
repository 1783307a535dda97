//! The entry of the client: from its configuration to the settings of the
//! transport and the supervisor of its tunnels.

use vstd::prelude::*;
use crate::endpoint::{LocalToRemote, Platform};
use crate::error::ConfigError;
use crate::headers::{first_host, host_header, host_header_of, split_host, without_host, Header};
use crate::proxy::{complete_proxy_url, parse_url, proxy_url_of, proxy_url_text};
use crate::supervisor::{initial, plan_of, Supervisor};
use crate::text::text_of;
use crate::transport::{
    ping_frequency, ping_frequency_of, scheme_of, server_port, server_port_of, tls_of,
    tls_settings, upgrade_path_prefix, upgrade_path_prefix_of, ServerAddr, TransportConfig,
    TransportScheme, CONNECT_TIMEOUT_SECS,
};

verus! {

/// The configuration of a client.
#[derive(Clone, Debug, PartialEq, Eq)]
pub struct Client {
    /// The tunnels whose connections are accepted locally.
    pub local_to_remote: Vec<LocalToRemote>,
    /// The tunnels whose connections are accepted by the server.
    pub remote_to_local: Vec<LocalToRemote>,
    /// The mark that is put on the packets of the client.
    pub socket_so_mark: Option<u32>,
    /// How many idle connections to the server are kept ready.
    pub connection_min_idle: u32,
    /// The longest pause between two attempts to reach the server, in
    /// seconds.
    pub connection_retry_max_backoff_sec: u64,
    pub tls_sni_override: Option<String>,
    pub tls_sni_disable: bool,
    pub tls_verify_certificate: bool,
    pub http_proxy: Option<String>,
    pub http_proxy_login: Option<String>,
    pub http_proxy_password: Option<String>,
    pub http_upgrade_path_prefix: String,
    pub http_upgrade_credentials: Option<Vec<u8>>,
    /// How often the server is pinged, in seconds; zero for never.
    pub websocket_ping_frequency_sec: Option<u64>,
    pub websocket_mask_frame: bool,
    pub http_headers: Vec<Header>,
    pub http_headers_file: Option<String>,
    pub remote_addr: ServerAddr,
    pub tls_certificate: Option<String>,
    pub tls_private_key: Option<String>,
    /// The URLs of the DNS resolvers to ask.
    pub dns_resolver: Vec<String>,
    pub dns_resolver_prefer_ipv4: bool,
}

impl Client {
    /// The client presents a certificate of its own: it has both a
    /// certificate and the private key to it.
    pub open spec fn has_identity(&self) -> bool {
        self.tls_certificate is Some && self.tls_private_key is Some
    }

    /// Where the certificate and the private key of the client lie, if it has
    /// both.
    pub fn identity(&self) -> (r: Option<(&String, &String)>)
        ensures
            r is Some == self.has_identity(),
            r matches Some((certificate, key)) ==> self.tls_certificate == Some(*certificate)
                && self.tls_private_key == Some(*key),
    {
        match (&self.tls_certificate, &self.tls_private_key) {
            (Some(certificate), Some(key)) => Some((certificate, key)),
            _ => None,
        }
    }

    /// The value of the Host header that the configuration gives, if it gives
    /// one.
    pub open spec fn explicit_host(self) -> Option<Seq<u8>> {
        match first_host(self.http_headers@) {
            Some(header) => Some(header.value@),
            None => None,
        }
    }

    /// Why no transport can be set up for the configuration, if none can: the
    /// first of a scheme that is none of a server, a server address without
    /// host, a host that cannot stand in a header, and a proxy whose URL
    /// cannot be made.
    pub open spec fn transport_error(self) -> Option<ConfigError> {
        match scheme_of(self.remote_addr.scheme@) {
            None => Some(ConfigError::InvalidScheme),
            Some(scheme) => match self.remote_addr.host {
                None => Some(ConfigError::MissingHost),
                Some(host) => match host_header_of(
                    self.explicit_host(),
                    host@,
                    server_port_of(scheme, self.remote_addr.port),
                ) {
                    Err(error) => Some(error),
                    Ok(_) => match proxy_url_of(
                        text_of(self.http_proxy),
                        text_of(self.http_proxy_login),
                        text_of(self.http_proxy_password),
                    ) {
                        Err(error) => Some(error),
                        Ok(_) => None,
                    },
                },
            },
        }
    }

    /// The common name that the client is known by to the server: that of its
    /// certificate, if it presents one.
    pub open spec fn presented_cn(self, certificate_cn: Option<String>) -> Option<Seq<char>> {
        if self.has_identity() {
            text_of(certificate_cn)
        } else {
            None
        }
    }

    /// The settings are those that the configuration asks for, for a client
    /// whose certificate has the common name `certificate_cn`.
    pub open spec fn asks_for(self, certificate_cn: Option<String>, config: TransportConfig) -> bool {
        &&& scheme_of(self.remote_addr.scheme@) == Some(config.scheme)
        &&& self.remote_addr.host == Some(config.host)
        &&& config.port == server_port_of(config.scheme, self.remote_addr.port)
        &&& config.tls == tls_of(
            config.scheme,
            self.tls_verify_certificate,
            self.tls_sni_disable,
            self.tls_sni_override,
            self.tls_certificate,
            self.tls_private_key,
        )
        &&& config.socket_so_mark == self.socket_so_mark
        &&& config.http_upgrade_path_prefix@ == upgrade_path_prefix_of(
            self.http_upgrade_path_prefix@,
            self.presented_cn(certificate_cn),
        )
        &&& config.http_upgrade_credentials == self.http_upgrade_credentials
        &&& config.http_headers@ == without_host(self.http_headers@)
        &&& config.http_headers_file == self.http_headers_file
        &&& host_header_of(self.explicit_host(), config.host@, config.port) == Ok::<
            Seq<u8>,
            ConfigError,
        >(config.http_header_host@)
        &&& config.timeout_connect_sec == CONNECT_TIMEOUT_SECS
        &&& config.websocket_ping_frequency_sec == ping_frequency_of(
            self.websocket_ping_frequency_sec,
        )
        &&& config.websocket_mask_frame == self.websocket_mask_frame
        &&& config.dns_resolver == self.dns_resolver
        &&& config.dns_resolver_prefer_ipv6 == !self.dns_resolver_prefer_ipv4
        &&& proxy_url_of(
            text_of(self.http_proxy),
            text_of(self.http_proxy_login),
            text_of(self.http_proxy_password),
        ) == Ok::<Option<Seq<char>>, ConfigError>(text_of(config.http_proxy))
        &&& config.connection_min_idle == self.connection_min_idle
        &&& config.connection_retry_max_backoff_sec == self.connection_retry_max_backoff_sec
    }
}

/// A client that is ready to run: the settings of its transport, and the
/// supervisor that hands out its tunnels.
#[derive(Clone, Debug, PartialEq, Eq)]
pub struct Connection {
    pub config: TransportConfig,
    pub supervisor: Supervisor,
}

/// The way into the client.
pub struct WsClientApi {}

impl WsClientApi {
    /// Makes a client ready to run. The settings of the transport are worked
    /// out, every tunnel is laid out, and nothing is started: a
    /// configuration that cannot run is refused here as a whole.
    ///
    /// `certificate_cn` is the common name of the certificate of the client,
    /// if it has one; it counts only for a client that has the private key
    /// to its certificate. `platform` is what the client was built for.
    pub fn connect(args: Box<Client>, certificate_cn: Option<String>, platform: Platform) -> (r:
        Result<Connection, ConfigError>)
        ensures
            match args.transport_error() {
                Some(error) => r matches Err(e) && e == error,
                None => match plan_of(args.local_to_remote@, args.remote_to_local@, platform) {
                    Err(error) => r matches Err(e) && e == error,
                    Ok(queue) => r matches Ok(connection) && args.asks_for(
                        certificate_cn,
                        connection.config,
                    ) && connection.supervisor@ == initial(queue),
                },
            },
    {
        let Client {
            local_to_remote,
            remote_to_local,
            socket_so_mark,
            connection_min_idle,
            connection_retry_max_backoff_sec,
            tls_sni_override,
            tls_sni_disable,
            tls_verify_certificate,
            http_proxy,
            http_proxy_login,
            http_proxy_password,
            http_upgrade_path_prefix,
            http_upgrade_credentials,
            websocket_ping_frequency_sec,
            websocket_mask_frame,
            http_headers,
            http_headers_file,
            remote_addr,
            tls_certificate,
            tls_private_key,
            dns_resolver,
            dns_resolver_prefer_ipv4,
        } = *args;
        let ServerAddr { scheme: scheme_text, host, port } = remote_addr;
        let scheme = match TransportScheme::from_str(scheme_text.as_str()) {
            Ok(scheme) => scheme,
            Err(error) => { return Err(error); },
        };
        let host = match host {
            Some(host) => host,
            None => { return Err(ConfigError::MissingHost); },
        };
        let port = server_port(scheme, port);
        let (explicit_host, http_headers) = split_host(http_headers);
        let http_header_host = match host_header(explicit_host, host.as_str(), port) {
            Ok(value) => value,
            Err(error) => { return Err(error); },
        };
        let http_proxy = match Self::mk_http_proxy(http_proxy, http_proxy_login, http_proxy_password) {
            Ok(proxy) => proxy,
            Err(error) => { return Err(error); },
        };
        let supervisor = match Supervisor::new(local_to_remote, remote_to_local, platform) {
            Ok(supervisor) => supervisor,
            Err(error) => { return Err(error); },
        };
        let presented_cn = if tls_certificate.is_some() && tls_private_key.is_some() {
            certificate_cn
        } else {
            None
        };
        let config = TransportConfig {
            scheme,
            host,
            port,
            tls: tls_settings(
                scheme,
                tls_verify_certificate,
                tls_sni_disable,
                tls_sni_override,
                tls_certificate,
                tls_private_key,
            ),
            socket_so_mark,
            http_upgrade_path_prefix: upgrade_path_prefix(http_upgrade_path_prefix, presented_cn),
            http_upgrade_credentials,
            http_headers,
            http_headers_file,
            http_header_host,
            timeout_connect_sec: CONNECT_TIMEOUT_SECS,
            websocket_ping_frequency_sec: ping_frequency(websocket_ping_frequency_sec),
            websocket_mask_frame,
            dns_resolver,
            dns_resolver_prefer_ipv6: !dns_resolver_prefer_ipv4,
            http_proxy,
            connection_min_idle,
            connection_retry_max_backoff_sec,
        };
        Ok(Connection { config, supervisor })
    }

    /// Reads the address of the proxy as a URL, if the configuration names a
    /// proxy, and writes the login and the password into it. An address
    /// that names no scheme is taken to be one of plain HTTP.
    pub fn mk_http_proxy(
        http_proxy: Option<String>,
        proxy_login: Option<String>,
        proxy_password: Option<String>,
    ) -> (r: Result<Option<String>, ConfigError>)
        ensures
            match proxy_url_of(text_of(http_proxy), text_of(proxy_login), text_of(proxy_password)) {
                Ok(url) => r matches Ok(found) && text_of(found) == url,
                Err(error) => r matches Err(e) && e == error,
            },
    {
        let address = match http_proxy {
            None => { return Ok(None); },
            Some(address) => address,
        };
        let text = proxy_url_text(address);
        let parsed = match parse_url(text.as_str()) {
            Ok(url) => Some(url),
            Err(_) => None,
        };
        match complete_proxy_url(parsed, proxy_login, proxy_password) {
            Ok(url) => Ok(Some(url)),
            Err(error) => Err(error),
        }
    }
}

} // verus!
