//! Client configuration
//!
//! Times are in milliseconds.

use crate::error::Error;
use crate::protocol::constants::{DEFAULT_HANDSHAKE_TIMEOUT_MS, DEFAULT_IDLE_TIMEOUT_MS};
use crate::server::config::{
    CompressionConfig, ConfigFault, default_compression, invalid, Limits, validation_is,
};
use vstd::prelude::*;

verus! {

/// Largest frame that a client accepts when nothing else is said: 1 MiB
pub const DEFAULT_CLIENT_MAX_FRAME_SIZE: usize = 1024 * 1024;

/// Largest message that a client accepts when nothing else is said: 16 MiB
pub const DEFAULT_CLIENT_MAX_MESSAGE_SIZE: usize = 16 * 1024 * 1024;

/// TLS version
#[derive(Debug, Clone, Copy, PartialEq, Eq, Structural)]
pub enum TlsVersion {
    /// TLS 1.0
    V1_0,
    /// TLS 1.1
    V1_1,
    /// TLS 1.2
    V1_2,
    /// TLS 1.3
    V1_3,
}

/// TLS configuration
#[derive(Debug, Clone)]
pub struct TlsConfig {
    /// Enable TLS verification
    pub verify: bool,
    /// Path to CA certificate file
    pub ca_file: Option<String>,
    /// Path to client certificate file
    pub cert_file: Option<String>,
    /// Path to client private key file
    pub key_file: Option<String>,
    /// Server name for SNI
    pub server_name: Option<String>,
    /// Minimum TLS version
    pub min_version: Option<TlsVersion>,
    /// Maximum TLS version
    pub max_version: Option<TlsVersion>,
}

/// Client configuration
#[derive(Debug, Clone)]
pub struct ClientConfig {
    /// Maximum frame size in bytes
    pub max_frame_size: usize,
    /// Maximum message size in bytes
    pub max_message_size: usize,
    /// Handshake timeout
    pub handshake_timeout: u64,
    /// Idle timeout
    pub idle_timeout: u64,
    /// Compression configuration
    pub compression: CompressionConfig,
    /// TLS configuration
    pub tls: Option<TlsConfig>,
    /// User agent string
    pub user_agent: String,
    /// Origin header
    pub origin: Option<String>,
    /// WebSocket subprotocols
    pub protocols: Vec<String>,
    /// Custom headers
    pub headers: Vec<(String, String)>,
}

/// The first fault, in the order of the checks, of the limits of a
/// client.
pub open spec fn client_fault(l: Limits) -> Option<ConfigFault> {
    if l.max_frame_size == 0 {
        Some(ConfigFault::NoFrameSize)
    } else if l.max_message_size == 0 {
        Some(ConfigFault::NoMessageSize)
    } else if l.max_message_size < l.max_frame_size {
        Some(ConfigFault::MessageSmallerThanFrame)
    } else if l.handshake_timeout == 0 {
        Some(ConfigFault::NoHandshakeTimeout)
    } else {
        None
    }
}

impl Default for ClientConfig {
    fn default() -> (c: Self)
        ensures
            c.max_frame_size == DEFAULT_CLIENT_MAX_FRAME_SIZE,
            c.max_message_size == DEFAULT_CLIENT_MAX_MESSAGE_SIZE,
            c.handshake_timeout == DEFAULT_HANDSHAKE_TIMEOUT_MS,
            c.idle_timeout == DEFAULT_IDLE_TIMEOUT_MS,
            c.compression == default_compression(),
            c.tls is None,
            c.user_agent@ == "aerosocket-client/0.1.0"@,
            c.origin is None,
            c.protocols@.len() == 0,
            c.headers@.len() == 0,
            client_fault(c.limits()) is None,
    {
        ClientConfig {
            max_frame_size: DEFAULT_CLIENT_MAX_FRAME_SIZE,
            max_message_size: DEFAULT_CLIENT_MAX_MESSAGE_SIZE,
            handshake_timeout: DEFAULT_HANDSHAKE_TIMEOUT_MS,
            idle_timeout: DEFAULT_IDLE_TIMEOUT_MS,
            compression: CompressionConfig::default(),
            tls: None,
            user_agent: "aerosocket-client/0.1.0".to_string(),
            origin: None,
            protocols: Vec::new(),
            headers: Vec::new(),
        }
    }
}

impl ClientConfig {
    /// The numbers that the validity of the configuration depends on.
    pub open spec fn limits(&self) -> Limits {
        Limits {
            max_connections: 1,
            max_frame_size: self.max_frame_size,
            max_message_size: self.max_message_size,
            handshake_timeout: self.handshake_timeout,
        }
    }

    /// Validate the configuration
    pub fn validate(&self) -> (r: Result<(), Error>)
        ensures
            validation_is(r, client_fault(self.limits())),
    {
        if self.max_frame_size == 0 {
            return invalid("max_frame_size must be greater than 0");
        }
        if self.max_message_size == 0 {
            return invalid("max_message_size must be greater than 0");
        }
        if self.max_message_size < self.max_frame_size {
            return invalid("max_message_size must be greater than or equal to max_frame_size");
        }
        if self.handshake_timeout == 0 {
            return invalid("handshake_timeout must be greater than 0");
        }
        Ok(())
    }

    /// Set maximum frame size
    pub fn max_frame_size(self, size: usize) -> (c: Self)
        ensures
            c == (ClientConfig { max_frame_size: size, ..self }),
    {
        let mut c = self;
        c.max_frame_size = size;
        c
    }

    /// Set maximum message size
    pub fn max_message_size(self, size: usize) -> (c: Self)
        ensures
            c == (ClientConfig { max_message_size: size, ..self }),
    {
        let mut c = self;
        c.max_message_size = size;
        c
    }

    /// Set handshake timeout
    pub fn handshake_timeout(self, timeout: u64) -> (c: Self)
        ensures
            c == (ClientConfig { handshake_timeout: timeout, ..self }),
    {
        let mut c = self;
        c.handshake_timeout = timeout;
        c
    }

    /// Set idle timeout
    pub fn idle_timeout(self, timeout: u64) -> (c: Self)
        ensures
            c == (ClientConfig { idle_timeout: timeout, ..self }),
    {
        let mut c = self;
        c.idle_timeout = timeout;
        c
    }

    /// Set user agent
    pub fn user_agent(self, agent: String) -> (c: Self)
        ensures
            c == (ClientConfig { user_agent: agent, ..self }),
    {
        let mut c = self;
        c.user_agent = agent;
        c
    }

    /// Set origin
    pub fn origin(self, origin: String) -> (c: Self)
        ensures
            c == (ClientConfig { origin: Some(origin), ..self }),
    {
        let mut c = self;
        c.origin = Some(origin);
        c
    }

    /// Add a subprotocol
    pub fn add_protocol(self, protocol: String) -> (c: Self)
        ensures
            c.protocols@ == self.protocols@.push(protocol),
            c == (ClientConfig { protocols: c.protocols, ..self }),
    {
        let mut c = self;
        c.protocols.push(protocol);
        c
    }

    /// Add a custom header
    pub fn add_header(self, name: String, value: String) -> (c: Self)
        ensures
            c.headers@ == self.headers@.push((name, value)),
            c == (ClientConfig { headers: c.headers, ..self }),
    {
        let mut c = self;
        c.headers.push((name, value));
        c
    }

    /// Set TLS configuration
    pub fn tls(self, config: TlsConfig) -> (c: Self)
        ensures
            c == (ClientConfig { tls: Some(config), ..self }),
    {
        let mut c = self;
        c.tls = Some(config);
        c
    }
}

} // verus!
