//! The failures a request can end in.

use vstd::prelude::*;
use vstd::string::*;

verus! {

/// What is wrong with the configuration of a location.
#[derive(Debug, Clone, Copy, PartialEq, Eq, Structural)]
pub enum ConfigDefect {
    /// The location serves no files and names no proxy target.
    NoHandler,
    /// The proxy target cannot be parsed or names no domain.
    InvalidTarget,
}

/// A per-request failure. None of them ends the server.
#[derive(Debug, Clone, Copy, PartialEq, Eq, Structural)]
pub enum ProxyError {
    /// The location is misconfigured.
    ConfigurationError(ConfigDefect),
    /// No connection to the backend could be set up.
    ConnectError,
    /// Sending the request or receiving the response failed.
    TransportError,
}

impl ProxyError {
    /// Whether the failure lies in the configuration rather than the network.
    pub fn is_configuration(&self) -> (configuration: bool)
        ensures
            configuration == (*self is ConfigurationError),
    {
        match self {
            ProxyError::ConfigurationError(_) => true,
            _ => false,
        }
    }

    /// A short description of the failure.
    pub fn message(&self) -> (text: String)
        ensures
            text@ == match *self {
                ProxyError::ConfigurationError(ConfigDefect::NoHandler) => "no handler"@,
                ProxyError::ConfigurationError(ConfigDefect::InvalidTarget) => "invalid target"@,
                ProxyError::ConnectError => "connect error"@,
                ProxyError::TransportError => "transport error"@,
            },
    {
        match self {
            ProxyError::ConfigurationError(ConfigDefect::NoHandler) => String::from_str("no handler"),
            ProxyError::ConfigurationError(ConfigDefect::InvalidTarget) => String::from_str(
                "invalid target",
            ),
            ProxyError::ConnectError => String::from_str("connect error"),
            ProxyError::TransportError => String::from_str("transport error"),
        }
    }
}

} // verus!
