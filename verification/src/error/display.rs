//! Errors in words.

use crate::error::{
    CloseCode, CloseError, ConfigError, Error, FrameError, MessageError, ProtocolError,
    SecurityError, TimeoutError,
};
use crate::text::{decimal, decimal_string};
use vstd::prelude::*;
use vstd::string::StringExecFns;

verus! {

impl CloseCode {
    /// The name of a close code.
    pub open spec fn name(&self) -> Seq<char> {
        match self {
            CloseCode::Normal => "Normal"@,
            CloseCode::Away => "Away"@,
            CloseCode::ProtocolError => "ProtocolError"@,
            CloseCode::Unsupported => "Unsupported"@,
            CloseCode::NoStatus => "NoStatus"@,
            CloseCode::Abnormal => "Abnormal"@,
            CloseCode::InvalidPayload => "InvalidPayload"@,
            CloseCode::PolicyViolation => "PolicyViolation"@,
            CloseCode::TooBig => "TooBig"@,
            CloseCode::MandatoryExtension => "MandatoryExtension"@,
            CloseCode::Internal => "Internal"@,
            CloseCode::TlsHandshake => "TlsHandshake"@,
            CloseCode::Application(_) => "Application"@,
        }
    }

    /// The close code in words: its name, and its number in parentheses.
    pub open spec fn description(&self) -> Seq<char> {
        self.name() + " ("@ + decimal(self.spec_code() as nat) + ")"@
    }

    /// The close code in words.
    pub fn to_string(&self) -> (s: String)
        ensures
            s@ == self.description(),
    {
        let name = match self {
            CloseCode::Normal => "Normal",
            CloseCode::Away => "Away",
            CloseCode::ProtocolError => "ProtocolError",
            CloseCode::Unsupported => "Unsupported",
            CloseCode::NoStatus => "NoStatus",
            CloseCode::Abnormal => "Abnormal",
            CloseCode::InvalidPayload => "InvalidPayload",
            CloseCode::PolicyViolation => "PolicyViolation",
            CloseCode::TooBig => "TooBig",
            CloseCode::MandatoryExtension => "MandatoryExtension",
            CloseCode::Internal => "Internal",
            CloseCode::TlsHandshake => "TlsHandshake",
            CloseCode::Application(_) => "Application",
        };
        let mut s = name.to_string();
        s.append(" (");
        let n = decimal_string(self.code() as u64);
        s.append(n.as_str());
        s.append(")");
        s
    }
}

impl ProtocolError {
    /// The protocol error in words.
    pub open spec fn description(&self) -> Seq<char> {
        match self {
            ProtocolError::UnsupportedVersion => "Unsupported WebSocket version"@,
            ProtocolError::InvalidUpgradeRequest => "Invalid WebSocket upgrade request"@,
            ProtocolError::MissingHeader(a) => "Missing required header: "@ + a@,
            ProtocolError::InvalidHeader { header, value } =>
                "Invalid header value for "@ + header@ + ": "@ + value@,
            ProtocolError::ExtensionNegotiation(a) => "Extension negotiation failed: "@ + a@,
            ProtocolError::SubprotocolNegotiation => "Subprotocol negotiation failed"@,
            ProtocolError::InvalidFrame(a) => "Invalid frame format: "@ + a@,
            ProtocolError::FragmentedControlFrame => "Control frames cannot be fragmented"@,
            ProtocolError::InvalidCloseCode(a) => "Invalid close code: "@ + decimal(*a as nat),
            ProtocolError::ReservedBitsSet => "Reserved bits set in frame"@,
            ProtocolError::InvalidMethod(a) => "Invalid HTTP method: "@ + a@,
            ProtocolError::InvalidFormat(a) => "Invalid format: "@ + a@,
            ProtocolError::InvalidHeaderValue { header, value } =>
                "Invalid header value for "@ + header@ + ": "@ + value@,
            ProtocolError::InvalidOrigin { expected, received } =>
                "Invalid origin - expected: "@ + expected@ + ", received: "@ + received@,
            ProtocolError::UnsupportedProtocol(a) => "Unsupported WebSocket protocol: "@ + a@,
            ProtocolError::UnexpectedStatus(a) => "Unexpected HTTP status: "@ + decimal(*a as nat),
            ProtocolError::InvalidAcceptKey { expected, received } =>
                "Invalid WebSocket accept key - expected: "@ + expected@ + ", received: "@
                    + received@,
        }
    }

    /// The protocol error in words.
    pub fn to_string(&self) -> (s: String)
        ensures
            s@ == self.description(),
    {
        match self {
            ProtocolError::UnsupportedVersion => {
                "Unsupported WebSocket version".to_string()
            },
            ProtocolError::InvalidUpgradeRequest => {
                "Invalid WebSocket upgrade request".to_string()
            },
            ProtocolError::MissingHeader(a) => {
                let mut s = "Missing required header: ".to_string();
                s.append(a.as_str());
                s
            },
            ProtocolError::InvalidHeader { header, value } => {
                let mut s = "Invalid header value for ".to_string();
                s.append(header.as_str());
                s.append(": ");
                s.append(value.as_str());
                s
            },
            ProtocolError::ExtensionNegotiation(a) => {
                let mut s = "Extension negotiation failed: ".to_string();
                s.append(a.as_str());
                s
            },
            ProtocolError::SubprotocolNegotiation => {
                "Subprotocol negotiation failed".to_string()
            },
            ProtocolError::InvalidFrame(a) => {
                let mut s = "Invalid frame format: ".to_string();
                s.append(a.as_str());
                s
            },
            ProtocolError::FragmentedControlFrame => {
                "Control frames cannot be fragmented".to_string()
            },
            ProtocolError::InvalidCloseCode(a) => {
                let mut s = "Invalid close code: ".to_string();
                let n = decimal_string(*a as u64);
                s.append(n.as_str());
                s
            },
            ProtocolError::ReservedBitsSet => {
                "Reserved bits set in frame".to_string()
            },
            ProtocolError::InvalidMethod(a) => {
                let mut s = "Invalid HTTP method: ".to_string();
                s.append(a.as_str());
                s
            },
            ProtocolError::InvalidFormat(a) => {
                let mut s = "Invalid format: ".to_string();
                s.append(a.as_str());
                s
            },
            ProtocolError::InvalidHeaderValue { header, value } => {
                let mut s = "Invalid header value for ".to_string();
                s.append(header.as_str());
                s.append(": ");
                s.append(value.as_str());
                s
            },
            ProtocolError::InvalidOrigin { expected, received } => {
                let mut s = "Invalid origin - expected: ".to_string();
                s.append(expected.as_str());
                s.append(", received: ");
                s.append(received.as_str());
                s
            },
            ProtocolError::UnsupportedProtocol(a) => {
                let mut s = "Unsupported WebSocket protocol: ".to_string();
                s.append(a.as_str());
                s
            },
            ProtocolError::UnexpectedStatus(a) => {
                let mut s = "Unexpected HTTP status: ".to_string();
                let n = decimal_string(*a as u64);
                s.append(n.as_str());
                s
            },
            ProtocolError::InvalidAcceptKey { expected, received } => {
                let mut s = "Invalid WebSocket accept key - expected: ".to_string();
                s.append(expected.as_str());
                s.append(", received: ");
                s.append(received.as_str());
                s
            },
        }
    }
}

impl FrameError {
    /// The frame error in words.
    pub open spec fn description(&self) -> Seq<char> {
        match self {
            FrameError::InsufficientData { needed, have } =>
                "Insufficient data: need "@ + decimal(*needed as nat) + " bytes, have "@
                    + decimal(*have as nat),
            FrameError::TooLarge { size, max } =>
                "Frame too large: "@ + decimal(*size as nat) + " bytes (max: "@
                    + decimal(*max as nat) + ")"@,
            FrameError::InvalidHeader(a) => "Invalid frame header: "@ + a@,
            FrameError::InvalidMasking(a) => "Invalid masking: "@ + a@,
            FrameError::InvalidOpcode(a) => "Invalid opcode: "@ + decimal(*a as nat),
            FrameError::ReservedBitsSet => "Reserved bits set in frame"@,
            FrameError::DecompressionFailed => "Decompression failed"@,
            FrameError::FragmentedControlFrame => "Control frames cannot be fragmented"@,
        }
    }

    /// The frame error in words.
    pub fn to_string(&self) -> (s: String)
        ensures
            s@ == self.description(),
    {
        match self {
            FrameError::InsufficientData { needed, have } => {
                let mut s = "Insufficient data: need ".to_string();
                let n = decimal_string(*needed as u64);
                s.append(n.as_str());
                s.append(" bytes, have ");
                let n = decimal_string(*have as u64);
                s.append(n.as_str());
                s
            },
            FrameError::TooLarge { size, max } => {
                let mut s = "Frame too large: ".to_string();
                let n = decimal_string(*size as u64);
                s.append(n.as_str());
                s.append(" bytes (max: ");
                let n = decimal_string(*max as u64);
                s.append(n.as_str());
                s.append(")");
                s
            },
            FrameError::InvalidHeader(a) => {
                let mut s = "Invalid frame header: ".to_string();
                s.append(a.as_str());
                s
            },
            FrameError::InvalidMasking(a) => {
                let mut s = "Invalid masking: ".to_string();
                s.append(a.as_str());
                s
            },
            FrameError::InvalidOpcode(a) => {
                let mut s = "Invalid opcode: ".to_string();
                let n = decimal_string(*a as u64);
                s.append(n.as_str());
                s
            },
            FrameError::ReservedBitsSet => {
                "Reserved bits set in frame".to_string()
            },
            FrameError::DecompressionFailed => {
                "Decompression failed".to_string()
            },
            FrameError::FragmentedControlFrame => {
                "Control frames cannot be fragmented".to_string()
            },
        }
    }
}

impl ConfigError {
    /// The configuration error in words.
    pub open spec fn description(&self) -> Seq<char> {
        match self {
            ConfigError::InvalidValue { field, value } =>
                "Invalid configuration value for "@ + field@ + ": "@ + value@,
            ConfigError::MissingField { field } => "Missing required configuration: "@ + field@,
            ConfigError::Validation(a) => "Configuration validation failed: "@ + a@,
        }
    }

    /// The configuration error in words.
    pub fn to_string(&self) -> (s: String)
        ensures
            s@ == self.description(),
    {
        match self {
            ConfigError::InvalidValue { field, value } => {
                let mut s = "Invalid configuration value for ".to_string();
                s.append(field.as_str());
                s.append(": ");
                s.append(value.as_str());
                s
            },
            ConfigError::MissingField { field } => {
                let mut s = "Missing required configuration: ".to_string();
                s.append(field.as_str());
                s
            },
            ConfigError::Validation(a) => {
                let mut s = "Configuration validation failed: ".to_string();
                s.append(a.as_str());
                s
            },
        }
    }
}

impl MessageError {
    /// The message error in words.
    pub open spec fn description(&self) -> Seq<char> {
        match self {
            MessageError::TooLarge { size, max } =>
                "Message too large: "@ + decimal(*size as nat) + " bytes (max: "@
                    + decimal(*max as nat) + ")"@,
            MessageError::InvalidFormat(a) => "Invalid message format: "@ + a@,
            MessageError::FragmentedControl => "Control messages cannot be fragmented"@,
            MessageError::Incomplete { missing } => "Incomplete message: missing "@ + missing@,
        }
    }

    /// The message error in words.
    pub fn to_string(&self) -> (s: String)
        ensures
            s@ == self.description(),
    {
        match self {
            MessageError::TooLarge { size, max } => {
                let mut s = "Message too large: ".to_string();
                let n = decimal_string(*size as u64);
                s.append(n.as_str());
                s.append(" bytes (max: ");
                let n = decimal_string(*max as u64);
                s.append(n.as_str());
                s.append(")");
                s
            },
            MessageError::InvalidFormat(a) => {
                let mut s = "Invalid message format: ".to_string();
                s.append(a.as_str());
                s
            },
            MessageError::FragmentedControl => {
                "Control messages cannot be fragmented".to_string()
            },
            MessageError::Incomplete { missing } => {
                let mut s = "Incomplete message: missing ".to_string();
                s.append(missing.as_str());
                s
            },
        }
    }
}

impl SecurityError {
    /// The security error in words.
    pub open spec fn description(&self) -> Seq<char> {
        match self {
            SecurityError::Authentication(a) => "Authentication failed: "@ + a@,
            SecurityError::Authorization(a) => "Authorization failed: "@ + a@,
            SecurityError::RateLimit => "Rate limit exceeded"@,
            SecurityError::Blocked { reason } => "Connection blocked: "@ + reason@,
            SecurityError::PolicyViolation(a) => "Security policy violation: "@ + a@,
        }
    }

    /// The security error in words.
    pub fn to_string(&self) -> (s: String)
        ensures
            s@ == self.description(),
    {
        match self {
            SecurityError::Authentication(a) => {
                let mut s = "Authentication failed: ".to_string();
                s.append(a.as_str());
                s
            },
            SecurityError::Authorization(a) => {
                let mut s = "Authorization failed: ".to_string();
                s.append(a.as_str());
                s
            },
            SecurityError::RateLimit => {
                "Rate limit exceeded".to_string()
            },
            SecurityError::Blocked { reason } => {
                let mut s = "Connection blocked: ".to_string();
                s.append(reason.as_str());
                s
            },
            SecurityError::PolicyViolation(a) => {
                let mut s = "Security policy violation: ".to_string();
                s.append(a.as_str());
                s
            },
        }
    }
}

impl TimeoutError {
    /// The timeout error in words.
    pub open spec fn description(&self) -> Seq<char> {
        match self {
            TimeoutError::Handshake { timeout_ms } =>
                "Handshake timeout: "@ + decimal(*timeout_ms as nat) + "ms"@,
            TimeoutError::Read { timeout_ms } =>
                "Read timeout: "@ + decimal(*timeout_ms as nat) + "ms"@,
            TimeoutError::Write { timeout_ms } =>
                "Write timeout: "@ + decimal(*timeout_ms as nat) + "ms"@,
            TimeoutError::Idle { timeout_ms } =>
                "Idle timeout: "@ + decimal(*timeout_ms as nat) + "ms"@,
        }
    }

    /// The timeout error in words.
    pub fn to_string(&self) -> (s: String)
        ensures
            s@ == self.description(),
    {
        match self {
            TimeoutError::Handshake { timeout_ms } => {
                let mut s = "Handshake timeout: ".to_string();
                let n = decimal_string(*timeout_ms as u64);
                s.append(n.as_str());
                s.append("ms");
                s
            },
            TimeoutError::Read { timeout_ms } => {
                let mut s = "Read timeout: ".to_string();
                let n = decimal_string(*timeout_ms as u64);
                s.append(n.as_str());
                s.append("ms");
                s
            },
            TimeoutError::Write { timeout_ms } => {
                let mut s = "Write timeout: ".to_string();
                let n = decimal_string(*timeout_ms as u64);
                s.append(n.as_str());
                s.append("ms");
                s
            },
            TimeoutError::Idle { timeout_ms } => {
                let mut s = "Idle timeout: ".to_string();
                let n = decimal_string(*timeout_ms as u64);
                s.append(n.as_str());
                s.append("ms");
                s
            },
        }
    }
}

impl CloseError {
    /// The close error in words.
    pub open spec fn description(&self) -> Seq<char> {
        match self {
            CloseError::InvalidCode { code } => "Invalid close code: "@ + decimal(*code as nat),
            CloseError::ReasonTooLong { len, max } =>
                "Close reason too long: "@ + decimal(*len as nat) + " bytes (max: "@
                    + decimal(*max as nat) + ")"@,
            CloseError::InvalidUtf8 => "Invalid UTF-8 in close reason"@,
        }
    }

    /// The close error in words.
    pub fn to_string(&self) -> (s: String)
        ensures
            s@ == self.description(),
    {
        match self {
            CloseError::InvalidCode { code } => {
                let mut s = "Invalid close code: ".to_string();
                let n = decimal_string(*code as u64);
                s.append(n.as_str());
                s
            },
            CloseError::ReasonTooLong { len, max } => {
                let mut s = "Close reason too long: ".to_string();
                let n = decimal_string(*len as u64);
                s.append(n.as_str());
                s.append(" bytes (max: ");
                let n = decimal_string(*max as u64);
                s.append(n.as_str());
                s.append(")");
                s
            },
            CloseError::InvalidUtf8 => {
                "Invalid UTF-8 in close reason".to_string()
            },
        }
    }
}

impl Error {
    /// The error in words.
    pub open spec fn description(&self) -> Seq<char> {
        match self {
            Error::Protocol(a) => "Protocol error: "@ + a.description(),
            Error::Io(a) => "I/O error: "@ + a@,
            Error::Config(a) => "Configuration error: "@ + a.description(),
            Error::Frame(a) => "Frame error: "@ + a.description(),
            Error::Message(a) => "Message error: "@ + a.description(),
            Error::Security(a) => "Security error: "@ + a.description(),
            Error::Timeout(a) => "Timeout error: "@ + a.description(),
            Error::Close(a) => "Close error: "@ + a.description(),
            Error::Connection(a) => "Connection error: "@ + a@,
            Error::Other(a) => "Error: "@ + a@,
            Error::CapacityExceeded { size } =>
                "Buffer capacity exceeded: "@ + decimal(*size as nat) + " bytes"@,
            Error::InvalidUtf8 => "Invalid UTF-8 in text frame"@,
            Error::Closed { code, reason } =>
                "Connection closed: "@ + code.description() + " - "@ + reason@,
        }
    }

    /// The error in words.
    pub fn to_string(&self) -> (s: String)
        ensures
            s@ == self.description(),
    {
        match self {
            Error::Protocol(a) => {
                let mut s = "Protocol error: ".to_string();
                let d = a.to_string();
                s.append(d.as_str());
                s
            },
            Error::Io(a) => {
                let mut s = "I/O error: ".to_string();
                s.append(a.as_str());
                s
            },
            Error::Config(a) => {
                let mut s = "Configuration error: ".to_string();
                let d = a.to_string();
                s.append(d.as_str());
                s
            },
            Error::Frame(a) => {
                let mut s = "Frame error: ".to_string();
                let d = a.to_string();
                s.append(d.as_str());
                s
            },
            Error::Message(a) => {
                let mut s = "Message error: ".to_string();
                let d = a.to_string();
                s.append(d.as_str());
                s
            },
            Error::Security(a) => {
                let mut s = "Security error: ".to_string();
                let d = a.to_string();
                s.append(d.as_str());
                s
            },
            Error::Timeout(a) => {
                let mut s = "Timeout error: ".to_string();
                let d = a.to_string();
                s.append(d.as_str());
                s
            },
            Error::Close(a) => {
                let mut s = "Close error: ".to_string();
                let d = a.to_string();
                s.append(d.as_str());
                s
            },
            Error::Connection(a) => {
                let mut s = "Connection error: ".to_string();
                s.append(a.as_str());
                s
            },
            Error::Other(a) => {
                let mut s = "Error: ".to_string();
                s.append(a.as_str());
                s
            },
            Error::CapacityExceeded { size } => {
                let mut s = "Buffer capacity exceeded: ".to_string();
                let n = decimal_string(*size as u64);
                s.append(n.as_str());
                s.append(" bytes");
                s
            },
            Error::InvalidUtf8 => {
                "Invalid UTF-8 in text frame".to_string()
            },
            Error::Closed { code, reason } => {
                let mut s = "Connection closed: ".to_string();
                let d = code.to_string();
                s.append(d.as_str());
                s.append(" - ");
                s.append(reason.as_str());
                s
            },
        }
    }
}

} // verus!
