//! Tunnel descriptions: who accepts the connections, over which protocol,
//! between which addresses.

use vstd::prelude::*;

verus! {

/// The side on which the connections of a tunnel are accepted.
#[derive(Clone, Copy, Debug, PartialEq, Eq, Structural)]
pub enum Direction {
    /// This process accepts connections and forwards them to the remote side.
    LocalInitiated,
    /// The remote side accepts connections and forwards them to a local target.
    RemoteInitiated,
}

/// The kind of operating system the client was built for.
#[derive(Clone, Copy, Debug, PartialEq, Eq, Structural)]
pub enum Platform {
    /// Linux: Unix sockets and transparent proxying are both available.
    Linux,
    /// A Unix other than Linux: Unix sockets only.
    Unix,
    /// Anything else: neither.
    Other,
}

impl Platform {
    /// Unix-domain sockets exist on this platform.
    pub open spec fn has_unix_sockets(self) -> bool {
        self != Platform::Other
    }

    /// Transparent proxying exists on this platform.
    pub open spec fn has_transparent_proxy(self) -> bool {
        self == Platform::Linux
    }

    /// Tells whether Unix-domain sockets exist on this platform.
    pub fn supports_unix_sockets(self) -> (r: bool)
        ensures
            r == self.has_unix_sockets(),
    {
        match self {
            Platform::Linux => true,
            Platform::Unix => true,
            Platform::Other => false,
        }
    }

    /// Tells whether transparent proxying exists on this platform.
    pub fn supports_transparent_proxy(self) -> (r: bool)
        ensures
            r == self.has_transparent_proxy(),
    {
        match self {
            Platform::Linux => true,
            Platform::Unix => false,
            Platform::Other => false,
        }
    }
}

/// A host as a tunnel names it: a domain name or an IP address.
#[derive(Clone, Debug, PartialEq, Eq)]
pub enum Host {
    Domain(String),
    /// The four octets of an IPv4 address, first octet first.
    Ipv4([u8; 4]),
    /// The eight 16-bit segments of an IPv6 address, first segment first.
    Ipv6([u16; 8]),
}

/// The socket address on which a tunnel accepts its connections.
#[derive(Clone, Copy, Debug, PartialEq, Eq)]
pub enum LocalAddr {
    V4 { ip: [u8; 4], port: u16 },
    V6 { ip: [u16; 8], port: u16, flowinfo: u32, scope_id: u32 },
}

/// A host and a port on it: where a tunnel connects to, or where the remote
/// side listens.
#[derive(Clone, Debug, PartialEq, Eq)]
pub struct Target {
    pub host: Host,
    pub port: u16,
}

/// The login and password that a SOCKS5 or HTTP proxy asks of its clients.
#[derive(Clone, Debug, PartialEq, Eq)]
pub struct Credentials {
    pub login: String,
    pub password: String,
}

/// The host and port that a socket address stands for.
pub open spec fn host_port(addr: LocalAddr) -> Target {
    match addr {
        LocalAddr::V4 { ip, port } => Target { host: Host::Ipv4(ip), port },
        LocalAddr::V6 { ip, port, flowinfo, scope_id } => Target { host: Host::Ipv6(ip), port },
    }
}

/// Splits a socket address into its host and its port. Flow information and
/// scope of an IPv6 address are dropped.
pub fn to_host_port(addr: LocalAddr) -> (r: Target)
    ensures
        r == host_port(addr),
{
    match addr {
        LocalAddr::V4 { ip, port } => Target { host: Host::Ipv4(ip), port },
        LocalAddr::V6 { ip, port, flowinfo: _, scope_id: _ } => Target { host: Host::Ipv6(ip), port },
    }
}

/// What a tunnel speaks on its accepting side, with the options of each
/// protocol. Timeouts are idle timeouts in whole seconds; `None` stands for
/// a tunnel that never times out.
#[derive(Clone, Debug, PartialEq, Eq)]
pub enum Protocol {
    Tcp { proxy_protocol: bool },
    Udp { timeout: Option<u64> },
    Socks5 { timeout: Option<u64>, credentials: Option<Credentials> },
    HttpProxy { timeout: Option<u64>, credentials: Option<Credentials>, proxy_protocol: bool },
    Stdio { proxy_protocol: bool },
    Unix { path: String, proxy_protocol: bool },
    TransparentTcp,
    TransparentUdp { timeout: Option<u64> },
}

/// A protocol without its options.
#[derive(Clone, Copy, Debug, PartialEq, Eq, Structural)]
pub enum ProtocolKind {
    Tcp,
    Udp,
    Socks5,
    HttpProxy,
    Stdio,
    Unix,
    TransparentTcp,
    TransparentUdp,
}

impl Protocol {
    /// The protocol, its options left out.
    pub open spec fn spec_kind(&self) -> ProtocolKind {
        match self {
            Protocol::Tcp { .. } => ProtocolKind::Tcp,
            Protocol::Udp { .. } => ProtocolKind::Udp,
            Protocol::Socks5 { .. } => ProtocolKind::Socks5,
            Protocol::HttpProxy { .. } => ProtocolKind::HttpProxy,
            Protocol::Stdio { .. } => ProtocolKind::Stdio,
            Protocol::Unix { .. } => ProtocolKind::Unix,
            Protocol::TransparentTcp => ProtocolKind::TransparentTcp,
            Protocol::TransparentUdp { .. } => ProtocolKind::TransparentUdp,
        }
    }

    /// Leaves the options of the protocol out.
    #[verifier::when_used_as_spec(spec_kind)]
    pub fn kind(&self) -> (r: ProtocolKind)
        ensures
            r == self.spec_kind(),
    {
        match self {
            Protocol::Tcp { .. } => ProtocolKind::Tcp,
            Protocol::Udp { .. } => ProtocolKind::Udp,
            Protocol::Socks5 { .. } => ProtocolKind::Socks5,
            Protocol::HttpProxy { .. } => ProtocolKind::HttpProxy,
            Protocol::Stdio { .. } => ProtocolKind::Stdio,
            Protocol::Unix { .. } => ProtocolKind::Unix,
            Protocol::TransparentTcp => ProtocolKind::TransparentTcp,
            Protocol::TransparentUdp { .. } => ProtocolKind::TransparentUdp,
        }
    }
}

/// The idle timeout that `timeout_sec=N` asks for. Zero switches the
/// timeout off; without the option a tunnel times out after
/// [`DEFAULT_IDLE_TIMEOUT_SECS`].
pub open spec fn idle_timeout_of(timeout_sec: Option<u64>) -> Option<u64> {
    match timeout_sec {
        None => Some(DEFAULT_IDLE_TIMEOUT_SECS),
        Some(secs) => if secs == 0 {
            None
        } else {
            Some(secs)
        },
    }
}

/// After how many idle seconds a tunnel is closed when its description does
/// not say.
pub const DEFAULT_IDLE_TIMEOUT_SECS: u64 = 30;

/// Settles the idle timeout of a tunnel from what its description asks for.
pub fn idle_timeout(timeout_sec: Option<u64>) -> (r: Option<u64>)
    ensures
        r == idle_timeout_of(timeout_sec),
{
    match timeout_sec {
        None => Some(DEFAULT_IDLE_TIMEOUT_SECS),
        Some(secs) => if secs == 0 {
            None
        } else {
            Some(secs)
        },
    }
}

/// One requested tunnel. A description never changes once it is made; the
/// supervisor hands each one to exactly one task.
#[derive(Clone, Debug, PartialEq, Eq)]
pub struct LocalToRemote {
    pub direction: Direction,
    pub local_protocol: Protocol,
    /// Where the tunnel accepts its connections: on this machine if it is
    /// local-initiated, on the server if it is remote-initiated.
    pub local: LocalAddr,
    /// Where the accepted connections are carried to.
    pub remote: Target,
}

} // verus!
