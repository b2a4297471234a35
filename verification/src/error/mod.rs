//! Error types of the protocol engine.
//!
//! Every kind of failure has a variant of its own, so that a contract can
//! name the exact error that an input produces.

use vstd::prelude::*;

pub mod display;

verus! {

/// Comprehensive error type of the protocol engine.
#[derive(Debug, Clone)]
pub enum Error {
    /// Protocol errors
    Protocol(ProtocolError),
    /// I/O errors, carried as their message
    Io(String),
    /// Configuration errors
    Config(ConfigError),
    /// Frame errors
    Frame(FrameError),
    /// Message errors
    Message(MessageError),
    /// Security errors
    Security(SecurityError),
    /// Timeout errors
    Timeout(TimeoutError),
    /// Close errors
    Close(CloseError),
    /// Connection errors
    Connection(String),
    /// Generic errors
    Other(String),
    /// Buffer capacity exceeded
    CapacityExceeded {
        /// Size that was asked for
        size: usize,
    },
    /// Invalid UTF-8 in text frame
    InvalidUtf8,
    /// Connection closed
    Closed {
        /// Close code
        code: CloseCode,
        /// Close reason
        reason: String,
    },
}

/// WebSocket protocol specific errors
#[derive(Debug, Clone)]
pub enum ProtocolError {
    /// Invalid WebSocket version
    UnsupportedVersion,
    /// Invalid upgrade request
    InvalidUpgradeRequest,
    /// Missing required headers
    MissingHeader(String),
    /// Invalid header line
    InvalidHeader {
        /// Name of the header
        header: String,
        /// Offending text
        value: String,
    },
    /// Extension negotiation failed
    ExtensionNegotiation(String),
    /// Subprotocol negotiation failed
    SubprotocolNegotiation,
    /// Invalid frame format
    InvalidFrame(String),
    /// Control frame fragmentation not allowed
    FragmentedControlFrame,
    /// Invalid close code
    InvalidCloseCode(u16),
    /// Reserved bits set in frame
    ReservedBitsSet,
    /// Invalid HTTP method
    InvalidMethod(String),
    /// Invalid format
    InvalidFormat(String),
    /// Invalid header value
    InvalidHeaderValue {
        /// Name of the header
        header: String,
        /// Value that was received
        value: String,
    },
    /// Invalid origin
    InvalidOrigin {
        /// Origin that the server accepts
        expected: String,
        /// Origin that was received
        received: String,
    },
    /// Unsupported protocol
    UnsupportedProtocol(String),
    /// Unexpected HTTP status
    UnexpectedStatus(u16),
    /// Invalid accept key
    InvalidAcceptKey {
        /// Accept value derived from the client's key
        expected: String,
        /// Accept value that was received
        received: String,
    },
}

/// Frame parsing and processing errors
#[derive(Debug, Clone)]
pub enum FrameError {
    /// Insufficient data to parse frame
    InsufficientData {
        /// Bytes that a whole frame takes
        needed: usize,
        /// Bytes at hand
        have: usize,
    },
    /// Frame too large
    TooLarge {
        /// Payload size of the frame
        size: usize,
        /// Largest payload size allowed
        max: usize,
    },
    /// Invalid frame header
    InvalidHeader(String),
    /// Invalid masking
    InvalidMasking(String),
    /// Invalid opcode
    InvalidOpcode(u8),
    /// Reserved bits set
    ReservedBitsSet,
    /// Decompression failed
    DecompressionFailed,
    /// Control frames cannot be fragmented
    FragmentedControlFrame,
}

/// Configuration errors
#[derive(Debug, Clone)]
pub enum ConfigError {
    /// Invalid configuration value
    InvalidValue {
        /// Name of the field
        field: String,
        /// Value that was refused
        value: String,
    },
    /// Missing required configuration
    MissingField {
        /// Name of the field
        field: String,
    },
    /// Configuration validation failed
    Validation(String),
}

/// Message errors
#[derive(Debug, Clone)]
pub enum MessageError {
    /// Message too large
    TooLarge {
        /// Size of the message
        size: usize,
        /// Largest size allowed
        max: usize,
    },
    /// Invalid message format
    InvalidFormat(String),
    /// Fragmented control message
    FragmentedControl,
    /// Incomplete message
    Incomplete {
        /// What is missing
        missing: String,
    },
}

/// Security errors
#[derive(Debug, Clone)]
pub enum SecurityError {
    /// Authentication failed
    Authentication(String),
    /// Authorization failed
    Authorization(String),
    /// Rate limit exceeded
    RateLimit,
    /// Blocked connection
    Blocked {
        /// Why the connection was blocked
        reason: String,
    },
    /// Security policy violation
    PolicyViolation(String),
}

/// Timeout errors; durations are in milliseconds.
#[derive(Debug, Clone)]
pub enum TimeoutError {
    /// Handshake timeout
    Handshake {
        /// Configured limit
        timeout_ms: u64,
    },
    /// Read timeout
    Read {
        /// Configured limit
        timeout_ms: u64,
    },
    /// Write timeout
    Write {
        /// Configured limit
        timeout_ms: u64,
    },
    /// Idle timeout
    Idle {
        /// Configured limit
        timeout_ms: u64,
    },
}

/// Close errors
#[derive(Debug, Clone)]
pub enum CloseError {
    /// Invalid close code
    InvalidCode {
        /// Code that was refused
        code: u16,
    },
    /// Close reason too long
    ReasonTooLong {
        /// Length of the reason in bytes
        len: usize,
        /// Largest length allowed
        max: usize,
    },
    /// UTF-8 error in close reason
    InvalidUtf8,
}

/// WebSocket close codes as defined in RFC 6455
#[derive(Debug, Clone, Copy, PartialEq, Eq, Structural)]
pub enum CloseCode {
    /// Normal closure (1000)
    Normal,
    /// Going away (1001)
    Away,
    /// Protocol error (1002)
    ProtocolError,
    /// Unsupported data (1003)
    Unsupported,
    /// No status received (1005)
    NoStatus,
    /// Abnormal closure (1006)
    Abnormal,
    /// Invalid frame payload data (1007)
    InvalidPayload,
    /// Policy violation (1008)
    PolicyViolation,
    /// Message too big (1009)
    TooBig,
    /// Mandatory extension (1010)
    MandatoryExtension,
    /// Internal server error (1011)
    Internal,
    /// TLS handshake failure (1015)
    TlsHandshake,
    /// Application-specific close code (3000 to 4999)
    Application(u16),
}

impl CloseCode {
    /// The close code that a 16-bit value stands for. A value that is
    /// neither a registered code nor in the application range stands for a
    /// protocol error.
    pub open spec fn spec_from(code: u16) -> CloseCode {
        if code == 1000 {
            CloseCode::Normal
        } else if code == 1001 {
            CloseCode::Away
        } else if code == 1002 {
            CloseCode::ProtocolError
        } else if code == 1003 {
            CloseCode::Unsupported
        } else if code == 1005 {
            CloseCode::NoStatus
        } else if code == 1006 {
            CloseCode::Abnormal
        } else if code == 1007 {
            CloseCode::InvalidPayload
        } else if code == 1008 {
            CloseCode::PolicyViolation
        } else if code == 1009 {
            CloseCode::TooBig
        } else if code == 1010 {
            CloseCode::MandatoryExtension
        } else if code == 1011 {
            CloseCode::Internal
        } else if code == 1015 {
            CloseCode::TlsHandshake
        } else if 3000 <= code <= 4999 {
            CloseCode::Application(code)
        } else {
            CloseCode::ProtocolError
        }
    }

    /// The 16-bit value of a close code.
    pub open spec fn spec_code(&self) -> u16 {
        match self {
            CloseCode::Normal => 1000,
            CloseCode::Away => 1001,
            CloseCode::ProtocolError => 1002,
            CloseCode::Unsupported => 1003,
            CloseCode::NoStatus => 1005,
            CloseCode::Abnormal => 1006,
            CloseCode::InvalidPayload => 1007,
            CloseCode::PolicyViolation => 1008,
            CloseCode::TooBig => 1009,
            CloseCode::MandatoryExtension => 1010,
            CloseCode::Internal => 1011,
            CloseCode::TlsHandshake => 1015,
            CloseCode::Application(code) => *code,
        }
    }

    /// The codes that never go over the wire: 1005, 1006 and 1015.
    pub open spec fn spec_is_reserved(&self) -> bool {
        *self == CloseCode::NoStatus || *self == CloseCode::Abnormal || *self
            == CloseCode::TlsHandshake
    }

    /// Every code but 1000 and 1001 reports an error.
    pub open spec fn spec_is_error(&self) -> bool {
        *self != CloseCode::Normal && *self != CloseCode::Away
    }

    /// Create a CloseCode from a u16
    pub fn from(code: u16) -> (r: CloseCode)
        ensures
            r == CloseCode::spec_from(code),
    {
        if code == 1000 {
            CloseCode::Normal
        } else if code == 1001 {
            CloseCode::Away
        } else if code == 1002 {
            CloseCode::ProtocolError
        } else if code == 1003 {
            CloseCode::Unsupported
        } else if code == 1005 {
            CloseCode::NoStatus
        } else if code == 1006 {
            CloseCode::Abnormal
        } else if code == 1007 {
            CloseCode::InvalidPayload
        } else if code == 1008 {
            CloseCode::PolicyViolation
        } else if code == 1009 {
            CloseCode::TooBig
        } else if code == 1010 {
            CloseCode::MandatoryExtension
        } else if code == 1011 {
            CloseCode::Internal
        } else if code == 1015 {
            CloseCode::TlsHandshake
        } else if 3000 <= code && code <= 4999 {
            CloseCode::Application(code)
        } else {
            CloseCode::ProtocolError
        }
    }

    /// Get the numeric value of the close code
    #[verifier::when_used_as_spec(spec_code)]
    pub fn code(&self) -> (r: u16)
        ensures
            r == self.spec_code(),
    {
        match self {
            CloseCode::Normal => 1000,
            CloseCode::Away => 1001,
            CloseCode::ProtocolError => 1002,
            CloseCode::Unsupported => 1003,
            CloseCode::NoStatus => 1005,
            CloseCode::Abnormal => 1006,
            CloseCode::InvalidPayload => 1007,
            CloseCode::PolicyViolation => 1008,
            CloseCode::TooBig => 1009,
            CloseCode::MandatoryExtension => 1010,
            CloseCode::Internal => 1011,
            CloseCode::TlsHandshake => 1015,
            CloseCode::Application(code) => *code,
        }
    }

    /// Check if this is a reserved close code
    #[verifier::when_used_as_spec(spec_is_reserved)]
    pub fn is_reserved(&self) -> (r: bool)
        ensures
            r == self.spec_is_reserved(),
    {
        matches!(self, CloseCode::NoStatus | CloseCode::Abnormal | CloseCode::TlsHandshake)
    }

    /// Check if this close code indicates an error
    #[verifier::when_used_as_spec(spec_is_error)]
    pub fn is_error(&self) -> (r: bool)
        ensures
            r == self.spec_is_error(),
    {
        !matches!(self, CloseCode::Normal | CloseCode::Away)
    }
}

/// A registered code, and a code of the application range, is the value of
/// the close code that it stands for.
pub proof fn lemma_close_code_roundtrip(code: u16)
    requires
        1000 <= code <= 1003 || 1005 <= code <= 1011 || code == 1015 || 3000 <= code <= 4999,
    ensures
        CloseCode::spec_from(code).spec_code() == code,
{
}

impl Error {
    /// The close code that tells the peer of this error: 1007 for text
    /// that is not UTF-8, 1009 for what is too big, 1010 for an extension
    /// that could not be negotiated, 1008 for a breach of policy, 1002 for
    /// any other error of the protocol, and 1011 for everything else.
    pub open spec fn spec_close_code(&self) -> CloseCode {
        match self {
            Error::InvalidUtf8 => CloseCode::InvalidPayload,
            Error::Close(CloseError::InvalidUtf8) => CloseCode::InvalidPayload,
            Error::Message(MessageError::TooLarge { .. }) => CloseCode::TooBig,
            Error::Frame(FrameError::TooLarge { .. }) => CloseCode::TooBig,
            Error::CapacityExceeded { .. } => CloseCode::TooBig,
            Error::Protocol(ProtocolError::ExtensionNegotiation(_)) =>
                CloseCode::MandatoryExtension,
            Error::Protocol(_) => CloseCode::ProtocolError,
            Error::Frame(_) => CloseCode::ProtocolError,
            Error::Message(_) => CloseCode::ProtocolError,
            Error::Close(_) => CloseCode::ProtocolError,
            Error::Security(_) => CloseCode::PolicyViolation,
            _ => CloseCode::Internal,
        }
    }

    /// The close code that tells the peer of this error.
    pub fn close_code(&self) -> (c: CloseCode)
        ensures
            c == self.spec_close_code(),
    {
        match self {
            Error::InvalidUtf8 => CloseCode::InvalidPayload,
            Error::Close(CloseError::InvalidUtf8) => CloseCode::InvalidPayload,
            Error::Message(MessageError::TooLarge { .. }) => CloseCode::TooBig,
            Error::Frame(FrameError::TooLarge { .. }) => CloseCode::TooBig,
            Error::CapacityExceeded { .. } => CloseCode::TooBig,
            Error::Protocol(ProtocolError::ExtensionNegotiation(_)) =>
                CloseCode::MandatoryExtension,
            Error::Protocol(_) => CloseCode::ProtocolError,
            Error::Frame(_) => CloseCode::ProtocolError,
            Error::Message(_) => CloseCode::ProtocolError,
            Error::Close(_) => CloseCode::ProtocolError,
            Error::Security(_) => CloseCode::PolicyViolation,
            _ => CloseCode::Internal,
        }
    }
}

} // verus!
