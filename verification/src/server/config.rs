//! Server configuration
//!
//! Times are in milliseconds.

use crate::error::{ConfigError, Error};
use crate::headers::Headers;
use crate::protocol::constants::{
    DEFAULT_HANDSHAKE_TIMEOUT_MS, DEFAULT_IDLE_TIMEOUT_MS, DEFAULT_MAX_FRAME_SIZE,
    DEFAULT_MAX_MESSAGE_SIZE,
};
use crate::transport::{IpAddress, SocketAddress};
use vstd::prelude::*;

verus! {

/// Transport type
#[derive(Debug, Clone, Copy, PartialEq, Eq, Structural)]
pub enum TransportType {
    /// TCP transport
    Tcp,
    /// TLS transport
    Tls,
}

/// Compression configuration
#[derive(Debug, Clone, Copy, PartialEq, Eq, Structural)]
pub struct CompressionConfig {
    /// Enable compression
    pub enabled: bool,
    /// Compression level (0-9)
    pub level: u8,
    /// Server context takeover
    pub server_context_takeover: bool,
    /// Client context takeover
    pub client_context_takeover: bool,
    /// Server max window bits
    pub server_max_window_bits: Option<u8>,
    /// Client max window bits
    pub client_max_window_bits: Option<u8>,
}

/// Compression as it is configured when nothing is said: switched off,
/// level 6.
pub open spec fn default_compression() -> CompressionConfig {
    CompressionConfig {
        enabled: false,
        level: 6,
        server_context_takeover: true,
        client_context_takeover: true,
        server_max_window_bits: None,
        client_max_window_bits: None,
    }
}

impl Default for CompressionConfig {
    fn default() -> (c: Self)
        ensures
            c == default_compression(),
    {
        CompressionConfig {
            enabled: false,
            level: 6,
            server_context_takeover: true,
            client_context_takeover: true,
            server_max_window_bits: None,
            client_max_window_bits: None,
        }
    }
}

/// Backpressure strategy
#[derive(Debug, Clone, Copy, PartialEq, Eq, Structural)]
pub enum BackpressureStrategy {
    /// Buffer messages (default)
    Buffer,
    /// Drop oldest messages when buffer is full
    DropOldest,
    /// Reject new messages when buffer is full
    Reject,
    /// Apply flow control to sender
    FlowControl,
}

/// Backpressure configuration
#[derive(Debug, Clone, Copy, PartialEq, Eq, Structural)]
pub struct BackpressureConfig {
    /// Whether backpressure is enabled
    pub enabled: bool,
    /// Maximum requests per minute per IP
    pub max_requests_per_minute: usize,
    /// Maximum concurrent connections per IP
    pub max_concurrent_per_peer: usize,
    /// Backpressure strategy
    pub strategy: BackpressureStrategy,
    /// Buffer size in bytes
    pub buffer_size: usize,
    /// High water mark in bytes
    pub high_water_mark: usize,
    /// Low water mark in bytes
    pub low_water_mark: usize,
}

/// Backpressure as it is configured when nothing is said: 60 requests a
/// minute and 10 connections for every peer.
pub open spec fn default_backpressure() -> BackpressureConfig {
    BackpressureConfig {
        enabled: true,
        max_requests_per_minute: 60,
        max_concurrent_per_peer: 10,
        strategy: BackpressureStrategy::Buffer,
        buffer_size: 65536,
        high_water_mark: 49152,
        low_water_mark: 16384,
    }
}

impl Default for BackpressureConfig {
    fn default() -> (c: Self)
        ensures
            c == default_backpressure(),
    {
        BackpressureConfig {
            enabled: true,
            max_requests_per_minute: 60,
            max_concurrent_per_peer: 10,
            strategy: BackpressureStrategy::Buffer,
            buffer_size: 64 * 1024,
            high_water_mark: 48 * 1024,
            low_water_mark: 16 * 1024,
        }
    }
}

/// TLS configuration
#[derive(Debug, Clone)]
pub struct TlsConfig {
    /// Path to certificate file
    pub cert_file: String,
    /// Path to private key file
    pub key_file: String,
    /// Certificate chain file (optional)
    pub cert_chain_file: Option<String>,
    /// Enable client authentication
    pub client_auth: bool,
    /// CA file for client authentication
    pub ca_file: Option<String>,
}

impl TlsConfig {
    /// Create a new TLS configuration
    pub fn new(cert_file: String, key_file: String) -> (c: Self)
        ensures
            c == (TlsConfig {
                cert_file,
                key_file,
                cert_chain_file: None,
                client_auth: false,
                ca_file: None,
            }),
    {
        TlsConfig { cert_file, key_file, cert_chain_file: None, client_auth: false, ca_file: None }
    }

    /// Set certificate chain file
    pub fn cert_chain_file(self, file: String) -> (c: Self)
        ensures
            c == (TlsConfig { cert_chain_file: Some(file), ..self }),
    {
        let mut c = self;
        c.cert_chain_file = Some(file);
        c
    }

    /// Enable client authentication
    pub fn client_auth(self, enabled: bool) -> (c: Self)
        ensures
            c == (TlsConfig { client_auth: enabled, ..self }),
    {
        let mut c = self;
        c.client_auth = enabled;
        c
    }

    /// Set CA file for client authentication
    pub fn ca_file(self, file: String) -> (c: Self)
        ensures
            c == (TlsConfig { ca_file: Some(file), ..self }),
    {
        let mut c = self;
        c.ca_file = Some(file);
        c
    }
}

/// Server configuration
#[derive(Debug, Clone)]
pub struct ServerConfig {
    /// Bind address
    pub bind_address: SocketAddress,
    /// Maximum concurrent connections
    pub max_connections: usize,
    /// Maximum frame size in bytes
    pub max_frame_size: usize,
    /// Maximum message size in bytes
    pub max_message_size: usize,
    /// Handshake timeout
    pub handshake_timeout: u64,
    /// Idle timeout
    pub idle_timeout: u64,
    /// Compression configuration
    pub compression: CompressionConfig,
    /// Backpressure configuration
    pub backpressure: BackpressureConfig,
    /// TLS configuration
    pub tls: Option<TlsConfig>,
    /// Transport type
    pub transport_type: TransportType,
    /// Supported WebSocket subprotocols
    pub supported_protocols: Vec<String>,
    /// Whether a client that shares no subprotocol is refused
    pub require_protocol: bool,
    /// Supported WebSocket extensions
    pub supported_extensions: Vec<String>,
    /// Allowed origin (for CORS)
    pub allowed_origin: Option<String>,
    /// Further allowed origins
    pub allowed_origins: Vec<String>,
    /// Extra headers to send in handshake response
    pub extra_headers: Headers,
}

/// The numbers of a configuration that its validity depends on.
pub struct Limits {
    pub max_connections: usize,
    pub max_frame_size: usize,
    pub max_message_size: usize,
    pub handshake_timeout: u64,
}

/// The reasons for which a configuration is refused.
pub enum ConfigFault {
    /// No connection is allowed.
    NoConnections,
    /// No frame fits the frame size.
    NoFrameSize,
    /// No message fits the message size.
    NoMessageSize,
    /// A frame may be larger than a message.
    MessageSmallerThanFrame,
    /// The handshake may take no time at all.
    NoHandshakeTimeout,
}

/// The first fault, in the order of the checks, of the limits of a
/// server.
pub open spec fn server_fault(l: Limits) -> Option<ConfigFault> {
    if l.max_connections == 0 {
        Some(ConfigFault::NoConnections)
    } else if l.max_frame_size == 0 {
        Some(ConfigFault::NoFrameSize)
    } else if l.max_message_size == 0 {
        Some(ConfigFault::NoMessageSize)
    } else if l.max_message_size < l.max_frame_size {
        Some(ConfigFault::MessageSmallerThanFrame)
    } else {
        None
    }
}

/// The words in which a fault is reported.
pub open spec fn fault_message(fault: ConfigFault) -> Seq<char> {
    match fault {
        ConfigFault::NoConnections => "max_connections must be greater than 0"@,
        ConfigFault::NoFrameSize => "max_frame_size must be greater than 0"@,
        ConfigFault::NoMessageSize => "max_message_size must be greater than 0"@,
        ConfigFault::MessageSmallerThanFrame =>
            "max_message_size must be greater than or equal to max_frame_size"@,
        ConfigFault::NoHandshakeTimeout => "handshake_timeout must be greater than 0"@,
    }
}

/// The answer `r` of a validation is what `fault` says. Every fault is
/// reported as a failed validation, in the words of the fault.
pub open spec fn validation_is(r: Result<(), Error>, fault: Option<ConfigFault>) -> bool {
    match fault {
        None => r is Ok,
        Some(f) => r matches Err(Error::Config(ConfigError::Validation(m))) && m@
            == fault_message(f),
    }
}

/// The error of a failed validation.
pub fn invalid(message: &str) -> (r: Result<(), Error>)
    ensures
        r matches Err(Error::Config(ConfigError::Validation(m))) && m@ == message@,
{
    Err(Error::Config(ConfigError::Validation(message.to_string())))
}

impl ServerConfig {
    /// The numbers that the validity of the configuration depends on.
    pub open spec fn limits(&self) -> Limits {
        Limits {
            max_connections: self.max_connections,
            max_frame_size: self.max_frame_size,
            max_message_size: self.max_message_size,
            handshake_timeout: self.handshake_timeout,
        }
    }

    /// What the listener of the server needs of TLS: nothing on plain TCP,
    /// the TLS configuration on TLS. A server on TLS without a TLS
    /// configuration cannot listen.
    pub fn listener_tls(&self) -> (r: Result<Option<&TlsConfig>, Error>)
        ensures
            match (self.transport_type, self.tls) {
                (TransportType::Tcp, _) => r matches Ok(None),
                (TransportType::Tls, Some(tls)) => r matches Ok(Some(t)) && *t == tls,
                (TransportType::Tls, None) => r matches Err(Error::Other(m)) && m@
                    == "TLS configuration required for TLS transport"@,
            },
    {
        match self.transport_type {
            TransportType::Tcp => Ok(None),
            TransportType::Tls => match &self.tls {
                Some(tls) => Ok(Some(tls)),
                None => Err(Error::Other("TLS configuration required for TLS transport".to_string())),
            },
        }
    }

    /// Validate the configuration
    pub fn validate(&self) -> (r: Result<(), Error>)
        ensures
            validation_is(r, server_fault(self.limits())),
    {
        if self.max_connections == 0 {
            return invalid("max_connections must be greater than 0");
        }
        if self.max_frame_size == 0 {
            return invalid("max_frame_size must be greater than 0");
        }
        if self.max_message_size == 0 {
            return invalid("max_message_size must be greater than 0");
        }
        if self.max_message_size < self.max_frame_size {
            return invalid("max_message_size must be greater than or equal to max_frame_size");
        }
        Ok(())
    }
}

impl Default for ServerConfig {
    fn default() -> (c: Self)
        ensures
            c.bind_address == (SocketAddress { ip: IpAddress::V4(0), port: 8080 }),
            c.max_connections == 10_000,
            c.max_frame_size == DEFAULT_MAX_FRAME_SIZE,
            c.max_message_size == DEFAULT_MAX_MESSAGE_SIZE,
            c.handshake_timeout == DEFAULT_HANDSHAKE_TIMEOUT_MS,
            c.idle_timeout == DEFAULT_IDLE_TIMEOUT_MS,
            c.compression == default_compression(),
            c.backpressure == default_backpressure(),
            c.tls is None,
            c.transport_type == TransportType::Tcp,
            c.supported_protocols@.len() == 0,
            !c.require_protocol,
            c.supported_extensions@.len() == 0,
            c.allowed_origin is None,
            c.allowed_origins@.len() == 0,
            c.extra_headers@.len() == 0,
            server_fault(c.limits()) is None,
    {
        ServerConfig {
            bind_address: SocketAddress { ip: IpAddress::V4(0), port: 8080 },
            max_connections: 10_000,
            max_frame_size: DEFAULT_MAX_FRAME_SIZE,
            max_message_size: DEFAULT_MAX_MESSAGE_SIZE,
            handshake_timeout: DEFAULT_HANDSHAKE_TIMEOUT_MS,
            idle_timeout: DEFAULT_IDLE_TIMEOUT_MS,
            compression: CompressionConfig::default(),
            backpressure: BackpressureConfig::default(),
            tls: None,
            transport_type: TransportType::Tcp,
            supported_protocols: Vec::new(),
            require_protocol: false,
            supported_extensions: Vec::new(),
            allowed_origin: None,
            allowed_origins: Vec::new(),
            extra_headers: Headers::new(),
        }
    }
}

} // verus!
