//! From a tunnel description to the listener or connector that serves it.

use vstd::prelude::*;
use crate::endpoint::{
    host_port, idle_timeout_of, to_host_port, Credentials, Direction, LocalAddr, LocalToRemote,
    Platform, Protocol, ProtocolKind, Target,
};
use crate::error::ConfigError;

verus! {

/// How a reverse tunnel reaches its local target. The connector only records
/// where to connect; connecting happens when the tunnel runs.
#[derive(Clone, Debug, PartialEq, Eq)]
pub enum Connector {
    Tcp { target: Target },
    Udp { target: Target },
    /// Connects over TCP to whatever each SOCKS5 request names.
    Socks5,
}

/// The protocol a reverse tunnel is announced with.
#[derive(Clone, Debug, PartialEq, Eq)]
pub enum ReverseProtocol {
    Tcp,
    Udp { timeout: Option<u64> },
    Socks5 { timeout: Option<u64>, credentials: Option<Credentials> },
    HttpProxy { timeout: Option<u64>, credentials: Option<Credentials> },
    Unix { path: String },
}

/// What the remote side is asked to listen on for a reverse tunnel.
#[derive(Clone, Debug, PartialEq, Eq)]
pub struct ReverseTunnel {
    pub protocol: ReverseProtocol,
    pub listen: Target,
}

/// The listener that accepts the local connections of a forward tunnel.
#[derive(Clone, Debug, PartialEq, Eq)]
pub enum Listener {
    Tcp { bind: LocalAddr, remote: Target, proxy_protocol: bool },
    Udp { bind: LocalAddr, remote: Target, timeout: Option<u64> },
    Socks5 { bind: LocalAddr, timeout: Option<u64>, credentials: Option<Credentials> },
    HttpProxy {
        bind: LocalAddr,
        timeout: Option<u64>,
        credentials: Option<Credentials>,
        proxy_protocol: bool,
    },
    /// Bridges the standard input and output of the process as the one
    /// connection of the tunnel.
    Stdio { remote: Target, proxy_protocol: bool },
    Unix { path: String, remote: Target, proxy_protocol: bool },
    TransparentTcp { bind: LocalAddr },
    TransparentUdp { bind: LocalAddr, timeout: Option<u64> },
}

/// A connector without its target.
#[derive(Clone, Copy, Debug, PartialEq, Eq, Structural)]
pub enum ConnectorKind {
    Tcp,
    Udp,
    Socks5,
}

impl Connector {
    /// The connector, its target left out.
    pub open spec fn spec_kind(&self) -> ConnectorKind {
        match self {
            Connector::Tcp { .. } => ConnectorKind::Tcp,
            Connector::Udp { .. } => ConnectorKind::Udp,
            Connector::Socks5 => ConnectorKind::Socks5,
        }
    }

    /// Leaves the target of the connector out.
    #[verifier::when_used_as_spec(spec_kind)]
    pub fn kind(&self) -> (r: ConnectorKind)
        ensures
            r == self.spec_kind(),
    {
        match self {
            Connector::Tcp { .. } => ConnectorKind::Tcp,
            Connector::Udp { .. } => ConnectorKind::Udp,
            Connector::Socks5 => ConnectorKind::Socks5,
        }
    }
}

impl ReverseProtocol {
    /// The protocol that the remote side listens with.
    pub open spec fn spec_kind(&self) -> ProtocolKind {
        match self {
            ReverseProtocol::Tcp => ProtocolKind::Tcp,
            ReverseProtocol::Udp { .. } => ProtocolKind::Udp,
            ReverseProtocol::Socks5 { .. } => ProtocolKind::Socks5,
            ReverseProtocol::HttpProxy { .. } => ProtocolKind::HttpProxy,
            ReverseProtocol::Unix { .. } => ProtocolKind::Unix,
        }
    }

    /// Tells which protocol the remote side listens with.
    #[verifier::when_used_as_spec(spec_kind)]
    pub fn kind(&self) -> (r: ProtocolKind)
        ensures
            r == self.spec_kind(),
    {
        match self {
            ReverseProtocol::Tcp => ProtocolKind::Tcp,
            ReverseProtocol::Udp { .. } => ProtocolKind::Udp,
            ReverseProtocol::Socks5 { .. } => ProtocolKind::Socks5,
            ReverseProtocol::HttpProxy { .. } => ProtocolKind::HttpProxy,
            ReverseProtocol::Unix { .. } => ProtocolKind::Unix,
        }
    }
}

impl Listener {
    /// The protocol that the listener accepts.
    pub open spec fn spec_kind(&self) -> ProtocolKind {
        match self {
            Listener::Tcp { .. } => ProtocolKind::Tcp,
            Listener::Udp { .. } => ProtocolKind::Udp,
            Listener::Socks5 { .. } => ProtocolKind::Socks5,
            Listener::HttpProxy { .. } => ProtocolKind::HttpProxy,
            Listener::Stdio { .. } => ProtocolKind::Stdio,
            Listener::Unix { .. } => ProtocolKind::Unix,
            Listener::TransparentTcp { .. } => ProtocolKind::TransparentTcp,
            Listener::TransparentUdp { .. } => ProtocolKind::TransparentUdp,
        }
    }

    /// Tells which protocol the listener accepts.
    #[verifier::when_used_as_spec(spec_kind)]
    pub fn kind(&self) -> (r: ProtocolKind)
        ensures
            r == self.spec_kind(),
    {
        match self {
            Listener::Tcp { .. } => ProtocolKind::Tcp,
            Listener::Udp { .. } => ProtocolKind::Udp,
            Listener::Socks5 { .. } => ProtocolKind::Socks5,
            Listener::HttpProxy { .. } => ProtocolKind::HttpProxy,
            Listener::Stdio { .. } => ProtocolKind::Stdio,
            Listener::Unix { .. } => ProtocolKind::Unix,
            Listener::TransparentTcp { .. } => ProtocolKind::TransparentTcp,
            Listener::TransparentUdp { .. } => ProtocolKind::TransparentUdp,
        }
    }
}

/// A tunnel that can be run, with what it runs on.
#[derive(Clone, Debug, PartialEq, Eq)]
pub enum Tunnel {
    /// A reverse tunnel: the remote side listens as `announce` says, and what
    /// it accepts is carried to `connector`.
    Reverse { connector: Connector, announce: ReverseTunnel },
    /// A forward tunnel: what `listener` accepts is carried to the remote
    /// side.
    Forward { listener: Listener },
}

/// What is to be done for one tunnel description.
#[derive(Clone, Debug, PartialEq, Eq)]
pub enum Dispatch {
    Run(Tunnel),
    /// The description asks for nothing that can run; it is passed over.
    Skip,
    /// The description cannot be served on this platform.
    Rejected(ConfigError),
}

/// Why a description cannot be served on a platform, if it cannot.
///
/// Unix sockets need a Unix, in either direction. A transparent proxy needs
/// Linux where it would listen locally; remotely it is never run, so no
/// platform is asked of it.
pub open spec fn rejection(
    direction: Direction,
    kind: ProtocolKind,
    platform: Platform,
) -> Option<ConfigError> {
    match kind {
        ProtocolKind::Unix => if platform.has_unix_sockets() {
            None
        } else {
            Some(ConfigError::UnixSocketUnavailable)
        },
        ProtocolKind::TransparentTcp | ProtocolKind::TransparentUdp => if direction
            == Direction::LocalInitiated && !platform.has_transparent_proxy() {
            Some(ConfigError::TransparentProxyUnavailable)
        } else {
            None
        },
        _ => None,
    }
}

/// The reverse tunnel of a remote-initiated description, if its protocol has
/// one.
///
/// The remote side always listens on the host and port of `local`. A TCP or
/// Unix-socket tunnel connects to the remote target of the description; a
/// UDP or HTTP-proxy tunnel connects to the address it listens on; a SOCKS5
/// tunnel connects to whatever each request names.
pub open spec fn reverse_of(endpoint: LocalToRemote) -> Option<(Connector, ReverseTunnel)> {
    let listen = host_port(endpoint.local);
    match endpoint.local_protocol {
        Protocol::Tcp { proxy_protocol } => Some(
            (
                Connector::Tcp { target: endpoint.remote },
                ReverseTunnel { protocol: ReverseProtocol::Tcp, listen },
            ),
        ),
        Protocol::Udp { timeout } => Some(
            (
                Connector::Udp { target: listen },
                ReverseTunnel { protocol: ReverseProtocol::Udp { timeout }, listen },
            ),
        ),
        Protocol::Socks5 { timeout, credentials } => Some(
            (
                Connector::Socks5,
                ReverseTunnel { protocol: ReverseProtocol::Socks5 { timeout, credentials }, listen },
            ),
        ),
        Protocol::HttpProxy { timeout, credentials, proxy_protocol } => Some(
            (
                Connector::Tcp { target: listen },
                ReverseTunnel {
                    protocol: ReverseProtocol::HttpProxy { timeout, credentials },
                    listen,
                },
            ),
        ),
        Protocol::Unix { path, proxy_protocol } => Some(
            (
                Connector::Tcp { target: endpoint.remote },
                ReverseTunnel { protocol: ReverseProtocol::Unix { path }, listen },
            ),
        ),
        Protocol::Stdio { .. } | Protocol::TransparentTcp | Protocol::TransparentUdp { .. } => None,
    }
}

/// The listener of a local-initiated description.
pub open spec fn listener_of(endpoint: LocalToRemote) -> Listener {
    match endpoint.local_protocol {
        Protocol::Tcp { proxy_protocol } => Listener::Tcp {
            bind: endpoint.local,
            remote: endpoint.remote,
            proxy_protocol,
        },
        Protocol::Udp { timeout } => Listener::Udp {
            bind: endpoint.local,
            remote: endpoint.remote,
            timeout,
        },
        Protocol::Socks5 { timeout, credentials } => Listener::Socks5 {
            bind: endpoint.local,
            timeout,
            credentials,
        },
        Protocol::HttpProxy { timeout, credentials, proxy_protocol } => Listener::HttpProxy {
            bind: endpoint.local,
            timeout,
            credentials,
            proxy_protocol,
        },
        Protocol::Stdio { proxy_protocol } => Listener::Stdio {
            remote: endpoint.remote,
            proxy_protocol,
        },
        Protocol::Unix { path, proxy_protocol } => Listener::Unix {
            path,
            remote: endpoint.remote,
            proxy_protocol,
        },
        Protocol::TransparentTcp => Listener::TransparentTcp { bind: endpoint.local },
        Protocol::TransparentUdp { timeout } => Listener::TransparentUdp {
            bind: endpoint.local,
            timeout,
        },
    }
}

/// What is done for a description on a platform.
pub open spec fn dispatch_of(endpoint: LocalToRemote, platform: Platform) -> Dispatch {
    match rejection(endpoint.direction, endpoint.local_protocol.spec_kind(), platform) {
        Some(error) => Dispatch::Rejected(error),
        None => match endpoint.direction {
            Direction::RemoteInitiated => match reverse_of(endpoint) {
                Some((connector, announce)) => Dispatch::Run(
                    Tunnel::Reverse { connector, announce },
                ),
                None => Dispatch::Skip,
            },
            Direction::LocalInitiated => Dispatch::Run(
                Tunnel::Forward { listener: listener_of(endpoint) },
            ),
        },
    }
}

/// Tells whether a description can be served on a platform.
pub fn check_platform(direction: Direction, kind: ProtocolKind, platform: Platform) -> (r: Result<
    (),
    ConfigError,
>)
    ensures
        r == match rejection(direction, kind, platform) {
            Some(error) => Err::<(), ConfigError>(error),
            None => Ok(()),
        },
{
    match kind {
        ProtocolKind::Unix => {
            if platform.supports_unix_sockets() {
                Ok(())
            } else {
                Err(ConfigError::UnixSocketUnavailable)
            }
        },
        ProtocolKind::TransparentTcp | ProtocolKind::TransparentUdp => {
            match direction {
                Direction::RemoteInitiated => Ok(()),
                Direction::LocalInitiated => {
                    if platform.supports_transparent_proxy() {
                        Ok(())
                    } else {
                        Err(ConfigError::TransparentProxyUnavailable)
                    }
                },
            }
        },
        _ => Ok(()),
    }
}

/// Chooses what is done for one description: the connector and announcement
/// of a reverse tunnel, the listener of a forward tunnel, nothing, or a
/// rejection where the platform cannot serve it. The description is used up.
pub fn dispatch(endpoint: LocalToRemote, platform: Platform) -> (r: Dispatch)
    ensures
        r == dispatch_of(endpoint, platform),
{
    let LocalToRemote { direction, local_protocol, local, remote } = endpoint;
    match check_platform(direction, local_protocol.kind(), platform) {
        Err(error) => Dispatch::Rejected(error),
        Ok(()) => match direction {
            Direction::RemoteInitiated => {
                let listen = to_host_port(local);
                let (connector, protocol) = match local_protocol {
                    Protocol::Tcp { proxy_protocol: _ } => (
                        Connector::Tcp { target: remote },
                        ReverseProtocol::Tcp,
                    ),
                    Protocol::Udp { timeout } => (
                        Connector::Udp { target: to_host_port(local) },
                        ReverseProtocol::Udp { timeout },
                    ),
                    Protocol::Socks5 { timeout, credentials } => (
                        Connector::Socks5,
                        ReverseProtocol::Socks5 { timeout, credentials },
                    ),
                    Protocol::HttpProxy { timeout, credentials, proxy_protocol: _ } => (
                        Connector::Tcp { target: to_host_port(local) },
                        ReverseProtocol::HttpProxy { timeout, credentials },
                    ),
                    Protocol::Unix { path, proxy_protocol: _ } => (
                        Connector::Tcp { target: remote },
                        ReverseProtocol::Unix { path },
                    ),
                    Protocol::Stdio { .. } => { return Dispatch::Skip; },
                    Protocol::TransparentTcp => { return Dispatch::Skip; },
                    Protocol::TransparentUdp { .. } => { return Dispatch::Skip; },
                };
                Dispatch::Run(
                    Tunnel::Reverse { connector, announce: ReverseTunnel { protocol, listen } },
                )
            },
            Direction::LocalInitiated => {
                let listener = match local_protocol {
                    Protocol::Tcp { proxy_protocol } => Listener::Tcp {
                        bind: local,
                        remote,
                        proxy_protocol,
                    },
                    Protocol::Udp { timeout } => Listener::Udp { bind: local, remote, timeout },
                    Protocol::Socks5 { timeout, credentials } => Listener::Socks5 {
                        bind: local,
                        timeout,
                        credentials,
                    },
                    Protocol::HttpProxy {
                        timeout,
                        credentials,
                        proxy_protocol,
                    } => Listener::HttpProxy { bind: local, timeout, credentials, proxy_protocol },
                    Protocol::Stdio { proxy_protocol } => Listener::Stdio { remote, proxy_protocol },
                    Protocol::Unix { path, proxy_protocol } => Listener::Unix {
                        path,
                        remote,
                        proxy_protocol,
                    },
                    Protocol::TransparentTcp => Listener::TransparentTcp { bind: local },
                    Protocol::TransparentUdp { timeout } => Listener::TransparentUdp {
                        bind: local,
                        timeout,
                    },
                };
                Dispatch::Run(Tunnel::Forward { listener })
            },
        },
    }
}

/// The connector that a reverse tunnel of each protocol is given, where the
/// protocol can run in reverse at all.
pub open spec fn reverse_connector_kind(kind: ProtocolKind) -> Option<ConnectorKind> {
    match kind {
        ProtocolKind::Tcp => Some(ConnectorKind::Tcp),
        ProtocolKind::Udp => Some(ConnectorKind::Udp),
        ProtocolKind::Socks5 => Some(ConnectorKind::Socks5),
        ProtocolKind::HttpProxy => Some(ConnectorKind::Tcp),
        ProtocolKind::Unix => Some(ConnectorKind::Tcp),
        ProtocolKind::Stdio | ProtocolKind::TransparentTcp | ProtocolKind::TransparentUdp => None,
    }
}

/// Each description meets exactly one fate, fixed by its direction, its
/// protocol and the platform. It is rejected exactly where the platform
/// cannot serve it. Otherwise a local-initiated description always runs, as a
/// forward tunnel with the listener of its own protocol. A remote-initiated
/// one runs as a reverse tunnel announced with its own protocol and given
/// the connector of that protocol, and is passed over exactly where the
/// protocol has none.
pub proof fn lemma_dispatch_pairing(endpoint: LocalToRemote, platform: Platform)
    ensures
        ({
            let kind = endpoint.local_protocol.spec_kind();
            let rejected = rejection(endpoint.direction, kind, platform);
            match dispatch_of(endpoint, platform) {
                Dispatch::Rejected(error) => rejected == Some(error),
                Dispatch::Run(Tunnel::Forward { listener }) => {
                    &&& rejected is None
                    &&& endpoint.direction == Direction::LocalInitiated
                    &&& listener.spec_kind() == kind
                },
                Dispatch::Run(Tunnel::Reverse { connector, announce }) => {
                    &&& rejected is None
                    &&& endpoint.direction == Direction::RemoteInitiated
                    &&& announce.protocol.spec_kind() == kind
                    &&& announce.listen == host_port(endpoint.local)
                    &&& reverse_connector_kind(kind) == Some(connector.spec_kind())
                },
                Dispatch::Skip => {
                    &&& rejected is None
                    &&& endpoint.direction == Direction::RemoteInitiated
                    &&& reverse_connector_kind(kind) is None
                },
            }
        }),
{
}

/// Unix sockets are refused on a platform without them, and transparent
/// proxies are refused as listeners anywhere but on Linux; nothing else is
/// ever refused.
pub proof fn lemma_rejection_is_platform_only(
    direction: Direction,
    kind: ProtocolKind,
    platform: Platform,
)
    ensures
        rejection(direction, kind, platform) is Some <==> {
            ||| kind == ProtocolKind::Unix && platform == Platform::Other
            ||| direction == Direction::LocalInitiated && platform != Platform::Linux && (kind
                == ProtocolKind::TransparentTcp || kind == ProtocolKind::TransparentUdp)
        },
        platform == Platform::Linux ==> rejection(direction, kind, platform) is None,
{
}

/// A remote-initiated UDP tunnel asked for with `timeout_sec=0` is announced
/// without an idle timeout; asked for with a positive number of seconds, it
/// is announced with exactly that timeout. The two never coincide.
pub proof fn lemma_reverse_udp_timeout(
    timeout_sec: u64,
    local: LocalAddr,
    remote: Target,
    platform: Platform,
)
    ensures
        ({
            let endpoint = LocalToRemote {
                direction: Direction::RemoteInitiated,
                local_protocol: Protocol::Udp { timeout: idle_timeout_of(Some(timeout_sec)) },
                local,
                remote,
            };
            let announced = if timeout_sec == 0 {
                None
            } else {
                Some(timeout_sec)
            };
            dispatch_of(endpoint, platform) == Dispatch::Run(
                Tunnel::Reverse {
                    connector: Connector::Udp { target: host_port(local) },
                    announce: ReverseTunnel {
                        protocol: ReverseProtocol::Udp { timeout: announced },
                        listen: host_port(local),
                    },
                },
            )
        }),
{
}

} // verus!
