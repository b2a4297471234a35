//! Error types of the server.

use crate::error::Error;
use crate::text::{decimal, decimal_string};
use crate::transport::SocketAddress;
use vstd::prelude::*;
use vstd::string::StringExecFns;

pub mod display;

verus! {

/// Server-specific errors
#[derive(Debug, Clone)]
pub enum ServerError {
    /// Configuration error
    Config(ConfigError),
    /// Connection error
    Connection(ConnectionError),
    /// Handshake error
    Handshake(HandshakeError),
    /// Protocol error
    Protocol(ProtocolError),
    /// Transport error
    Transport(TransportError),
    /// Handler error
    Handler(HandlerError),
    /// Manager error
    Manager(ManagerError),
    /// I/O error, carried as its message
    Io(String),
    /// Core error
    Core(Error),
    /// Timeout error
    Timeout {
        /// How long the operation was given, in milliseconds
        duration_ms: u64,
    },
    /// Capacity error
    Capacity(String),
    /// Authentication error
    Authentication(String),
    /// Authorization error
    Authorization(String),
    /// Rate limit error
    RateLimit(String),
    /// Internal error
    Internal(String),
}

/// Configuration errors
#[derive(Debug, Clone)]
pub enum ConfigError {
    /// Invalid bind address
    InvalidBindAddress(String),
    /// Invalid timeout value
    InvalidTimeout(String),
    /// Invalid buffer size
    InvalidBufferSize(String),
    /// Missing required configuration
    MissingRequired(String),
    /// Invalid TLS configuration
    InvalidTlsConfig(String),
    /// Invalid compression configuration
    InvalidCompressionConfig(String),
}

/// Connection errors
#[derive(Debug, Clone)]
pub enum ConnectionError {
    /// Connection closed
    Closed,
    /// Connection timed out
    TimedOut,
    /// Connection reset
    Reset,
    /// Connection refused
    Refused,
    /// Connection limit exceeded
    LimitExceeded {
        /// Connections that there are
        current: usize,
        /// Connections allowed
        max: usize,
    },
    /// Invalid connection state
    InvalidState {
        /// The state
        state: String,
    },
    /// Connection not found
    NotFound {
        /// The id asked for
        id: u64,
    },
    /// Connection already exists
    AlreadyExists {
        /// The id
        id: u64,
    },
}

/// Handshake errors
#[derive(Debug, Clone)]
pub enum HandshakeError {
    /// Invalid request method
    InvalidMethod {
        /// The method
        method: String,
    },
    /// Invalid WebSocket version
    InvalidVersion {
        /// The version
        version: String,
    },
    /// Missing required header
    MissingHeader {
        /// The header
        header: String,
    },
    /// Invalid header value
    InvalidHeaderValue {
        /// The header
        header: String,
        /// Its value
        value: String,
    },
    /// Unsupported subprotocol
    UnsupportedSubprotocol {
        /// The subprotocol
        protocol: String,
    },
    /// Unsupported extension
    UnsupportedExtension {
        /// The extension
        extension: String,
    },
    /// Invalid origin
    InvalidOrigin {
        /// The origin
        origin: String,
    },
    /// Key mismatch
    KeyMismatch,
    /// Authentication failed
    AuthenticationFailed {
        /// Why
        reason: String,
    },
}

/// Protocol errors
#[derive(Debug, Clone)]
pub enum ProtocolError {
    /// Invalid opcode
    InvalidOpcode {
        /// The opcode bits
        opcode: u8,
    },
    /// Invalid frame format
    InvalidFrame {
        /// Why
        reason: String,
    },
    /// Frame too large
    FrameTooLarge {
        /// Size of the frame
        size: usize,
        /// Largest size allowed
        max_size: usize,
    },
    /// Message too large
    MessageTooLarge {
        /// Size of the message
        size: usize,
        /// Largest size allowed
        max_size: usize,
    },
    /// Invalid UTF-8
    InvalidUtf8,
    /// Control frame fragmented
    FragmentedControlFrame,
    /// Invalid continuation
    InvalidContinuation,
    /// Masking required
    MaskingRequired,
    /// Masking forbidden
    MaskingForbidden,
    /// Reserved bits set
    ReservedBitsSet,
}

/// Transport errors
#[derive(Debug, Clone)]
pub enum TransportError {
    /// Accept failed
    AcceptFailed(String),
    /// Bind failed
    BindFailed(String),
    /// Read failed
    ReadFailed(String),
    /// Write failed
    WriteFailed(String),
    /// Flush failed
    FlushFailed(String),
    /// Close failed
    CloseFailed(String),
    /// TLS error
    Tls(String),
}

/// Handler errors
#[derive(Debug, Clone)]
pub enum HandlerError {
    /// Handler panicked
    Panicked(String),
    /// Handler returned error
    ReturnedError(String),
    /// Handler timeout
    Timeout {
        /// How long the handler was given, in milliseconds
        duration_ms: u64,
    },
    /// Handler not found
    NotFound {
        /// The path asked for
        path: String,
    },
}

/// Manager errors
#[derive(Debug, Clone)]
pub enum ManagerError {
    /// Manager not initialized
    NotInitialized,
    /// Manager shutdown
    Shutdown,
    /// Invalid connection ID
    InvalidId {
        /// The id
        id: u64,
    },
    /// Operation failed
    OperationFailed(String),
}

impl ServerError {
    /// The error of the protocol engine that stands for this error: a
    /// generic error with the words of this one.
    pub fn into_core(self) -> (e: Error)
        ensures
            e matches Error::Other(m) && m@ == self.description(),
    {
        Error::Other(self.to_string())
    }
}

/// Error context for better error reporting
#[derive(Debug, Clone)]
pub struct ErrorContext {
    /// Connection ID
    pub connection_id: Option<u64>,
    /// Remote address
    pub remote_addr: Option<SocketAddress>,
    /// Operation being performed
    pub operation: Option<String>,
    /// Additional context
    pub context: crate::headers::Headers,
}

impl ErrorContext {
    /// Create a new error context
    pub fn new() -> (c: Self)
        ensures
            c.connection_id is None,
            c.remote_addr is None,
            c.operation is None,
            c.context@.len() == 0,
    {
        ErrorContext {
            connection_id: None,
            remote_addr: None,
            operation: None,
            context: crate::headers::Headers::new(),
        }
    }

    /// Set connection ID
    pub fn with_connection_id(self, id: u64) -> (c: Self)
        ensures
            c == (ErrorContext { connection_id: Some(id), ..self }),
    {
        let mut c = self;
        c.connection_id = Some(id);
        c
    }

    /// Set remote address
    pub fn with_remote_addr(self, addr: SocketAddress) -> (c: Self)
        ensures
            c == (ErrorContext { remote_addr: Some(addr), ..self }),
    {
        let mut c = self;
        c.remote_addr = Some(addr);
        c
    }

    /// Set operation
    pub fn with_operation(self, op: &str) -> (c: Self)
        ensures
            c.operation matches Some(o) && o@ == op@,
            c.connection_id == self.connection_id,
            c.remote_addr == self.remote_addr,
            c.context == self.context,
    {
        let mut c = self;
        c.operation = Some(op.to_string());
        c
    }

    /// Add context key-value pair
    pub fn with_context(self, key: &str, value: &str) -> (c: Self)
        ensures
            c.context@ == crate::headers::inserted(self.context@, key@, value@),
            c.connection_id == self.connection_id,
            c.remote_addr == self.remote_addr,
            c.operation == self.operation,
    {
        let mut c = self;
        c.context.insert(key.to_string(), value.to_string());
        c
    }
}

impl Default for ErrorContext {
    fn default() -> (c: Self)
        ensures
            c.connection_id is None,
            c.remote_addr is None,
            c.operation is None,
            c.context@.len() == 0,
    {
        ErrorContext::new()
    }
}

/// Error with context
#[derive(Debug, Clone)]
pub struct ContextError {
    /// The underlying error
    pub error: ServerError,
    /// Error context
    pub context: ErrorContext,
}

impl ContextError {
    /// The error in words, followed by the connection, the peer and the
    /// operation that it belongs to, where they are known.
    pub open spec fn description(&self) -> Seq<char> {
        self.error.description() + (match self.context.connection_id {
            Some(id) => " (connection: "@ + decimal(id as nat) + ")"@,
            None => Seq::empty(),
        }) + (match self.context.remote_addr {
            Some(addr) => " (remote: "@ + addr.description() + ")"@,
            None => Seq::empty(),
        }) + (match self.context.operation {
            Some(op) => " (operation: "@ + op@ + ")"@,
            None => Seq::empty(),
        })
    }

    /// The error in words.
    pub fn to_string(&self) -> (s: String)
        ensures
            s@ == self.description(),
    {
        let mut s = self.error.to_string();
        match self.context.connection_id {
            Some(id) => {
                s.append(" (connection: ");
                let n = decimal_string(id);
                s.append(n.as_str());
                s.append(")");
            },
            None => {},
        }
        match self.context.remote_addr {
            Some(addr) => {
                s.append(" (remote: ");
                let a = addr.to_string();
                s.append(a.as_str());
                s.append(")");
            },
            None => {},
        }
        match &self.context.operation {
            Some(op) => {
                s.append(" (operation: ");
                s.append(op.as_str());
                s.append(")");
            },
            None => {},
        }
        s
    }
}

} // verus!
