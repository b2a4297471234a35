//! Errors of the server in words.

use crate::server::error::{
    ConfigError, ConnectionError, HandlerError, HandshakeError, ManagerError, ProtocolError,
    ServerError, TransportError,
};
use crate::text::{decimal, decimal_string};
use vstd::prelude::*;
use vstd::string::StringExecFns;

verus! {

impl ConfigError {
    /// The configuration error in words.
    pub open spec fn description(&self) -> Seq<char> {
        match self {
            ConfigError::InvalidBindAddress(a) => "Invalid bind address: "@ + a@,
            ConfigError::InvalidTimeout(a) => "Invalid timeout value: "@ + a@,
            ConfigError::InvalidBufferSize(a) => "Invalid buffer size: "@ + a@,
            ConfigError::MissingRequired(a) => "Missing required configuration: "@ + a@,
            ConfigError::InvalidTlsConfig(a) => "Invalid TLS configuration: "@ + a@,
            ConfigError::InvalidCompressionConfig(a) => "Invalid compression configuration: "@ + a@,
        }
    }

    /// The configuration error in words.
    pub fn to_string(&self) -> (s: String)
        ensures
            s@ == self.description(),
    {
        match self {
            ConfigError::InvalidBindAddress(a) => {
                let mut s = "Invalid bind address: ".to_string();
                s.append(a.as_str());
                s
            },
            ConfigError::InvalidTimeout(a) => {
                let mut s = "Invalid timeout value: ".to_string();
                s.append(a.as_str());
                s
            },
            ConfigError::InvalidBufferSize(a) => {
                let mut s = "Invalid buffer size: ".to_string();
                s.append(a.as_str());
                s
            },
            ConfigError::MissingRequired(a) => {
                let mut s = "Missing required configuration: ".to_string();
                s.append(a.as_str());
                s
            },
            ConfigError::InvalidTlsConfig(a) => {
                let mut s = "Invalid TLS configuration: ".to_string();
                s.append(a.as_str());
                s
            },
            ConfigError::InvalidCompressionConfig(a) => {
                let mut s = "Invalid compression configuration: ".to_string();
                s.append(a.as_str());
                s
            },
        }
    }
}

impl ConnectionError {
    /// The connection error in words.
    pub open spec fn description(&self) -> Seq<char> {
        match self {
            ConnectionError::Closed => "Connection closed"@,
            ConnectionError::TimedOut => "Connection timed out"@,
            ConnectionError::Reset => "Connection reset by peer"@,
            ConnectionError::Refused => "Connection refused"@,
            ConnectionError::LimitExceeded { current, max } =>
                "Connection limit exceeded: "@ + decimal(*current as nat) + "/"@
                    + decimal(*max as nat),
            ConnectionError::InvalidState { state } => "Invalid connection state: "@ + state@,
            ConnectionError::NotFound { id } => "Connection not found: "@ + decimal(*id as nat),
            ConnectionError::AlreadyExists { id } =>
                "Connection already exists: "@ + decimal(*id as nat),
        }
    }

    /// The connection error in words.
    pub fn to_string(&self) -> (s: String)
        ensures
            s@ == self.description(),
    {
        match self {
            ConnectionError::Closed => {
                "Connection closed".to_string()
            },
            ConnectionError::TimedOut => {
                "Connection timed out".to_string()
            },
            ConnectionError::Reset => {
                "Connection reset by peer".to_string()
            },
            ConnectionError::Refused => {
                "Connection refused".to_string()
            },
            ConnectionError::LimitExceeded { current, max } => {
                let mut s = "Connection limit exceeded: ".to_string();
                let n = decimal_string(*current as u64);
                s.append(n.as_str());
                s.append("/");
                let n = decimal_string(*max as u64);
                s.append(n.as_str());
                s
            },
            ConnectionError::InvalidState { state } => {
                let mut s = "Invalid connection state: ".to_string();
                s.append(state.as_str());
                s
            },
            ConnectionError::NotFound { id } => {
                let mut s = "Connection not found: ".to_string();
                let n = decimal_string(*id as u64);
                s.append(n.as_str());
                s
            },
            ConnectionError::AlreadyExists { id } => {
                let mut s = "Connection already exists: ".to_string();
                let n = decimal_string(*id as u64);
                s.append(n.as_str());
                s
            },
        }
    }
}

impl HandshakeError {
    /// The handshake error in words.
    pub open spec fn description(&self) -> Seq<char> {
        match self {
            HandshakeError::InvalidMethod { method } => "Invalid HTTP method: "@ + method@,
            HandshakeError::InvalidVersion { version } => "Invalid WebSocket version: "@ + version@,
            HandshakeError::MissingHeader { header } => "Missing required header: "@ + header@,
            HandshakeError::InvalidHeaderValue { header, value } =>
                "Invalid header value for '"@ + header@ + "': "@ + value@,
            HandshakeError::UnsupportedSubprotocol { protocol } =>
                "Unsupported subprotocol: "@ + protocol@,
            HandshakeError::UnsupportedExtension { extension } =>
                "Unsupported extension: "@ + extension@,
            HandshakeError::InvalidOrigin { origin } => "Invalid origin: "@ + origin@,
            HandshakeError::KeyMismatch => "WebSocket key mismatch"@,
            HandshakeError::AuthenticationFailed { reason } =>
                "Handshake authentication failed: "@ + reason@,
        }
    }

    /// The handshake error in words.
    pub fn to_string(&self) -> (s: String)
        ensures
            s@ == self.description(),
    {
        match self {
            HandshakeError::InvalidMethod { method } => {
                let mut s = "Invalid HTTP method: ".to_string();
                s.append(method.as_str());
                s
            },
            HandshakeError::InvalidVersion { version } => {
                let mut s = "Invalid WebSocket version: ".to_string();
                s.append(version.as_str());
                s
            },
            HandshakeError::MissingHeader { header } => {
                let mut s = "Missing required header: ".to_string();
                s.append(header.as_str());
                s
            },
            HandshakeError::InvalidHeaderValue { header, value } => {
                let mut s = "Invalid header value for '".to_string();
                s.append(header.as_str());
                s.append("': ");
                s.append(value.as_str());
                s
            },
            HandshakeError::UnsupportedSubprotocol { protocol } => {
                let mut s = "Unsupported subprotocol: ".to_string();
                s.append(protocol.as_str());
                s
            },
            HandshakeError::UnsupportedExtension { extension } => {
                let mut s = "Unsupported extension: ".to_string();
                s.append(extension.as_str());
                s
            },
            HandshakeError::InvalidOrigin { origin } => {
                let mut s = "Invalid origin: ".to_string();
                s.append(origin.as_str());
                s
            },
            HandshakeError::KeyMismatch => {
                "WebSocket key mismatch".to_string()
            },
            HandshakeError::AuthenticationFailed { reason } => {
                let mut s = "Handshake authentication failed: ".to_string();
                s.append(reason.as_str());
                s
            },
        }
    }
}

impl ProtocolError {
    /// The protocol error in words.
    pub open spec fn description(&self) -> Seq<char> {
        match self {
            ProtocolError::InvalidOpcode { opcode } =>
                "Invalid WebSocket opcode: "@ + decimal(*opcode as nat),
            ProtocolError::InvalidFrame { reason } => "Invalid frame format: "@ + reason@,
            ProtocolError::FrameTooLarge { size, max_size } =>
                "Frame too large: "@ + decimal(*size as nat) + "/"@ + decimal(*max_size as nat),
            ProtocolError::MessageTooLarge { size, max_size } =>
                "Message too large: "@ + decimal(*size as nat) + "/"@ + decimal(*max_size as nat),
            ProtocolError::InvalidUtf8 => "Invalid UTF-8 sequence in text frame"@,
            ProtocolError::FragmentedControlFrame => "Control frame fragmented"@,
            ProtocolError::InvalidContinuation => "Invalid continuation frame"@,
            ProtocolError::MaskingRequired => "Client frames must be masked"@,
            ProtocolError::MaskingForbidden => "Server frames must not be masked"@,
            ProtocolError::ReservedBitsSet => "Reserved bits are set"@,
        }
    }

    /// The protocol error in words.
    pub fn to_string(&self) -> (s: String)
        ensures
            s@ == self.description(),
    {
        match self {
            ProtocolError::InvalidOpcode { opcode } => {
                let mut s = "Invalid WebSocket opcode: ".to_string();
                let n = decimal_string(*opcode as u64);
                s.append(n.as_str());
                s
            },
            ProtocolError::InvalidFrame { reason } => {
                let mut s = "Invalid frame format: ".to_string();
                s.append(reason.as_str());
                s
            },
            ProtocolError::FrameTooLarge { size, max_size } => {
                let mut s = "Frame too large: ".to_string();
                let n = decimal_string(*size as u64);
                s.append(n.as_str());
                s.append("/");
                let n = decimal_string(*max_size as u64);
                s.append(n.as_str());
                s
            },
            ProtocolError::MessageTooLarge { size, max_size } => {
                let mut s = "Message too large: ".to_string();
                let n = decimal_string(*size as u64);
                s.append(n.as_str());
                s.append("/");
                let n = decimal_string(*max_size as u64);
                s.append(n.as_str());
                s
            },
            ProtocolError::InvalidUtf8 => {
                "Invalid UTF-8 sequence in text frame".to_string()
            },
            ProtocolError::FragmentedControlFrame => {
                "Control frame fragmented".to_string()
            },
            ProtocolError::InvalidContinuation => {
                "Invalid continuation frame".to_string()
            },
            ProtocolError::MaskingRequired => {
                "Client frames must be masked".to_string()
            },
            ProtocolError::MaskingForbidden => {
                "Server frames must not be masked".to_string()
            },
            ProtocolError::ReservedBitsSet => {
                "Reserved bits are set".to_string()
            },
        }
    }
}

impl TransportError {
    /// The transport error in words.
    pub open spec fn description(&self) -> Seq<char> {
        match self {
            TransportError::AcceptFailed(a) => "Failed to accept connection: "@ + a@,
            TransportError::BindFailed(a) => "Failed to bind to address: "@ + a@,
            TransportError::ReadFailed(a) => "Read failed: "@ + a@,
            TransportError::WriteFailed(a) => "Write failed: "@ + a@,
            TransportError::FlushFailed(a) => "Flush failed: "@ + a@,
            TransportError::CloseFailed(a) => "Close failed: "@ + a@,
            TransportError::Tls(a) => "TLS error: "@ + a@,
        }
    }

    /// The transport error in words.
    pub fn to_string(&self) -> (s: String)
        ensures
            s@ == self.description(),
    {
        match self {
            TransportError::AcceptFailed(a) => {
                let mut s = "Failed to accept connection: ".to_string();
                s.append(a.as_str());
                s
            },
            TransportError::BindFailed(a) => {
                let mut s = "Failed to bind to address: ".to_string();
                s.append(a.as_str());
                s
            },
            TransportError::ReadFailed(a) => {
                let mut s = "Read failed: ".to_string();
                s.append(a.as_str());
                s
            },
            TransportError::WriteFailed(a) => {
                let mut s = "Write failed: ".to_string();
                s.append(a.as_str());
                s
            },
            TransportError::FlushFailed(a) => {
                let mut s = "Flush failed: ".to_string();
                s.append(a.as_str());
                s
            },
            TransportError::CloseFailed(a) => {
                let mut s = "Close failed: ".to_string();
                s.append(a.as_str());
                s
            },
            TransportError::Tls(a) => {
                let mut s = "TLS error: ".to_string();
                s.append(a.as_str());
                s
            },
        }
    }
}

impl HandlerError {
    /// The handler error in words.
    pub open spec fn description(&self) -> Seq<char> {
        match self {
            HandlerError::Panicked(a) => "Handler panicked: "@ + a@,
            HandlerError::ReturnedError(a) => "Handler returned error: "@ + a@,
            HandlerError::Timeout { duration_ms } =>
                "Handler timed out after "@ + decimal(*duration_ms as nat) + "ms"@,
            HandlerError::NotFound { path } => "Handler not found for path: "@ + path@,
        }
    }

    /// The handler error in words.
    pub fn to_string(&self) -> (s: String)
        ensures
            s@ == self.description(),
    {
        match self {
            HandlerError::Panicked(a) => {
                let mut s = "Handler panicked: ".to_string();
                s.append(a.as_str());
                s
            },
            HandlerError::ReturnedError(a) => {
                let mut s = "Handler returned error: ".to_string();
                s.append(a.as_str());
                s
            },
            HandlerError::Timeout { duration_ms } => {
                let mut s = "Handler timed out after ".to_string();
                let n = decimal_string(*duration_ms as u64);
                s.append(n.as_str());
                s.append("ms");
                s
            },
            HandlerError::NotFound { path } => {
                let mut s = "Handler not found for path: ".to_string();
                s.append(path.as_str());
                s
            },
        }
    }
}

impl ManagerError {
    /// The manager error in words.
    pub open spec fn description(&self) -> Seq<char> {
        match self {
            ManagerError::NotInitialized => "Connection manager not initialized"@,
            ManagerError::Shutdown => "Connection manager is shutting down"@,
            ManagerError::InvalidId { id } => "Invalid connection ID: "@ + decimal(*id as nat),
            ManagerError::OperationFailed(a) => "Operation failed: "@ + a@,
        }
    }

    /// The manager error in words.
    pub fn to_string(&self) -> (s: String)
        ensures
            s@ == self.description(),
    {
        match self {
            ManagerError::NotInitialized => {
                "Connection manager not initialized".to_string()
            },
            ManagerError::Shutdown => {
                "Connection manager is shutting down".to_string()
            },
            ManagerError::InvalidId { id } => {
                let mut s = "Invalid connection ID: ".to_string();
                let n = decimal_string(*id as u64);
                s.append(n.as_str());
                s
            },
            ManagerError::OperationFailed(a) => {
                let mut s = "Operation failed: ".to_string();
                s.append(a.as_str());
                s
            },
        }
    }
}

impl ServerError {
    /// The server error in words.
    pub open spec fn description(&self) -> Seq<char> {
        match self {
            ServerError::Config(a) => "Configuration error: "@ + a.description(),
            ServerError::Connection(a) => "Connection error: "@ + a.description(),
            ServerError::Handshake(a) => "Handshake error: "@ + a.description(),
            ServerError::Protocol(a) => "Protocol error: "@ + a.description(),
            ServerError::Transport(a) => "Transport error: "@ + a.description(),
            ServerError::Handler(a) => "Handler error: "@ + a.description(),
            ServerError::Manager(a) => "Manager error: "@ + a.description(),
            ServerError::Io(a) => "I/O error: "@ + a@,
            ServerError::Core(a) => "Core error: "@ + a.description(),
            ServerError::Timeout { duration_ms } =>
                "Operation timed out after "@ + decimal(*duration_ms as nat) + "ms"@,
            ServerError::Capacity(a) => "Capacity exceeded: "@ + a@,
            ServerError::Authentication(a) => "Authentication failed: "@ + a@,
            ServerError::Authorization(a) => "Access denied: "@ + a@,
            ServerError::RateLimit(a) => "Rate limit exceeded: "@ + a@,
            ServerError::Internal(a) => "Internal server error: "@ + a@,
        }
    }

    /// The server error in words.
    pub fn to_string(&self) -> (s: String)
        ensures
            s@ == self.description(),
    {
        match self {
            ServerError::Config(a) => {
                let mut s = "Configuration error: ".to_string();
                let d = a.to_string();
                s.append(d.as_str());
                s
            },
            ServerError::Connection(a) => {
                let mut s = "Connection error: ".to_string();
                let d = a.to_string();
                s.append(d.as_str());
                s
            },
            ServerError::Handshake(a) => {
                let mut s = "Handshake error: ".to_string();
                let d = a.to_string();
                s.append(d.as_str());
                s
            },
            ServerError::Protocol(a) => {
                let mut s = "Protocol error: ".to_string();
                let d = a.to_string();
                s.append(d.as_str());
                s
            },
            ServerError::Transport(a) => {
                let mut s = "Transport error: ".to_string();
                let d = a.to_string();
                s.append(d.as_str());
                s
            },
            ServerError::Handler(a) => {
                let mut s = "Handler error: ".to_string();
                let d = a.to_string();
                s.append(d.as_str());
                s
            },
            ServerError::Manager(a) => {
                let mut s = "Manager error: ".to_string();
                let d = a.to_string();
                s.append(d.as_str());
                s
            },
            ServerError::Io(a) => {
                let mut s = "I/O error: ".to_string();
                s.append(a.as_str());
                s
            },
            ServerError::Core(a) => {
                let mut s = "Core error: ".to_string();
                let d = a.to_string();
                s.append(d.as_str());
                s
            },
            ServerError::Timeout { duration_ms } => {
                let mut s = "Operation timed out after ".to_string();
                let n = decimal_string(*duration_ms as u64);
                s.append(n.as_str());
                s.append("ms");
                s
            },
            ServerError::Capacity(a) => {
                let mut s = "Capacity exceeded: ".to_string();
                s.append(a.as_str());
                s
            },
            ServerError::Authentication(a) => {
                let mut s = "Authentication failed: ".to_string();
                s.append(a.as_str());
                s
            },
            ServerError::Authorization(a) => {
                let mut s = "Access denied: ".to_string();
                s.append(a.as_str());
                s
            },
            ServerError::RateLimit(a) => {
                let mut s = "Rate limit exceeded: ".to_string();
                s.append(a.as_str());
                s
            },
            ServerError::Internal(a) => {
                let mut s = "Internal server error: ".to_string();
                s.append(a.as_str());
                s
            },
        }
    }
}

} // verus!
