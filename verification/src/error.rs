//! Why a configuration is refused.

use vstd::prelude::*;

verus! {

/// Why a configuration cannot be run at all.
#[derive(Clone, Copy, Debug, PartialEq, Eq, Structural)]
pub enum ConfigError {
    /// The server address has a scheme other than ws, wss, http or https.
    InvalidScheme,
    /// The server address names no host.
    MissingHost,
    /// The host of the server address cannot be sent as a header value.
    InvalidHostHeader,
    InvalidProxyUrl,
    CannotSetProxyLogin,
    CannotSetProxyPassword,
    /// A Unix-socket tunnel was requested where Unix sockets do not exist.
    UnixSocketUnavailable,
    /// A transparent proxy was requested on a platform other than Linux.
    TransparentProxyUnavailable,
}

impl ConfigError {
    /// What the user is told.
    pub open spec fn message_text(self) -> Seq<char> {
        match self {
            ConfigError::InvalidScheme => "invalid scheme in server url"@,
            ConfigError::MissingHost => "no host in server url"@,
            ConfigError::InvalidHostHeader => "failed to parse header value"@,
            ConfigError::InvalidProxyUrl => "Invalid http proxy url"@,
            ConfigError::CannotSetProxyLogin => "Cannot set http proxy login"@,
            ConfigError::CannotSetProxyPassword => "Cannot set http proxy password"@,
            ConfigError::UnixSocketUnavailable => "Unix socket is not available for non Unix platform"@,
            ConfigError::TransparentProxyUnavailable => "Transparent proxy is not available for non Linux platform"@,
        }
    }

    /// Says in words why the configuration is refused.
    pub fn message(self) -> (r: &'static str)
        ensures
            r@ == self.message_text(),
    {
        match self {
            ConfigError::InvalidScheme => "invalid scheme in server url",
            ConfigError::MissingHost => "no host in server url",
            ConfigError::InvalidHostHeader => "failed to parse header value",
            ConfigError::InvalidProxyUrl => "Invalid http proxy url",
            ConfigError::CannotSetProxyLogin => "Cannot set http proxy login",
            ConfigError::CannotSetProxyPassword => "Cannot set http proxy password",
            ConfigError::UnixSocketUnavailable => "Unix socket is not available for non Unix platform",
            ConfigError::TransparentProxyUnavailable => "Transparent proxy is not available for non Linux platform",
        }
    }
}

} // verus!
