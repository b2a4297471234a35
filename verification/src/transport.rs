//! What the engine knows of a transport: its limits and the addresses of
//! its two ends. The transport itself, which reads and writes bytes, is
//! not part of this library.

use crate::protocol::constants::{
    DEFAULT_HANDSHAKE_TIMEOUT_MS, DEFAULT_IDLE_TIMEOUT_MS, DEFAULT_MAX_FRAME_SIZE,
    DEFAULT_MAX_MESSAGE_SIZE,
};
use crate::text::{decimal, decimal_string, hex, hex_string};
use vstd::prelude::*;
use vstd::string::StringExecFns;

verus! {

/// An IP address as a number: the 32 bits of an IPv4 address or the 128
/// bits of an IPv6 address.
#[derive(Debug, Clone, Copy, PartialEq, Eq, Structural)]
pub enum IpAddress {
    /// An IPv4 address
    V4(u32),
    /// An IPv6 address
    V6(u128),
}

/// The address of one end of a connection.
#[derive(Debug, Clone, Copy, PartialEq, Eq, Structural)]
pub struct SocketAddress {
    /// The IP address
    pub ip: IpAddress,
    /// The port
    pub port: u16,
}

impl IpAddress {
    /// The number that stands for a peer: an IPv6 address is its own
    /// number, an IPv4 address the number of the IPv6 address that it is
    /// mapped to (`::ffff:a.b.c.d`).
    pub open spec fn spec_key(&self) -> u128 {
        match self {
            IpAddress::V4(a) => (0xFFFF_0000_0000 + *a) as u128,
            IpAddress::V6(a) => *a,
        }
    }

    /// The number that stands for a peer.
    #[verifier::when_used_as_spec(spec_key)]
    pub fn key(&self) -> (k: u128)
        ensures
            k == self.spec_key(),
    {
        match self {
            IpAddress::V4(a) => 0xFFFF_0000_0000u128 + *a as u128,
            IpAddress::V6(a) => *a,
        }
    }
}

impl SocketAddress {
    /// The address of port `port` at the IPv4 address `a.b.c.d`.
    pub fn v4(a: u8, b: u8, c: u8, d: u8, port: u16) -> (addr: SocketAddress)
        ensures
            addr.port == port,
            addr.ip == IpAddress::V4((((a * 256 + b) * 256 + c) * 256 + d) as u32),
    {
        let ip: u32 = ((a as u32 * 256 + b as u32) * 256 + c as u32) * 256 + d as u32;
        SocketAddress { ip: IpAddress::V4(ip), port }
    }
}

/// Configuration for transport options
#[derive(Debug, Clone)]
pub struct TransportConfig {
    /// Maximum frame size
    pub max_frame_size: usize,
    /// Maximum message size
    pub max_message_size: usize,
    /// Handshake timeout in milliseconds
    pub handshake_timeout: u64,
    /// Idle timeout in milliseconds
    pub idle_timeout: u64,
    /// Whether small writes go out at once (no Nagle's algorithm)
    pub nodelay: bool,
    /// Receive buffer size
    pub recv_buffer_size: Option<usize>,
    /// Send buffer size
    pub send_buffer_size: Option<usize>,
}

impl Default for TransportConfig {
    fn default() -> (c: Self)
        ensures
            c.max_frame_size == DEFAULT_MAX_FRAME_SIZE,
            c.max_message_size == DEFAULT_MAX_MESSAGE_SIZE,
            c.handshake_timeout == DEFAULT_HANDSHAKE_TIMEOUT_MS,
            c.idle_timeout == DEFAULT_IDLE_TIMEOUT_MS,
            c.nodelay,
            c.recv_buffer_size is None,
            c.send_buffer_size is None,
    {
        TransportConfig {
            max_frame_size: DEFAULT_MAX_FRAME_SIZE,
            max_message_size: DEFAULT_MAX_MESSAGE_SIZE,
            handshake_timeout: DEFAULT_HANDSHAKE_TIMEOUT_MS,
            idle_timeout: DEFAULT_IDLE_TIMEOUT_MS,
            nodelay: true,
            recv_buffer_size: None,
            send_buffer_size: None,
        }
    }
}

/// One of the four numbers of an IPv4 address; the first has index 0.
pub open spec fn octet(a: u32, index: nat) -> nat {
    if index == 0 {
        (a / 0x100_0000) as nat
    } else if index == 1 {
        (a / 0x1_0000 % 256) as nat
    } else if index == 2 {
        (a / 0x100 % 256) as nat
    } else {
        (a % 256) as nat
    }
}

/// One of the eight groups of an IPv6 address; the first has index 0.
pub open spec fn group(a: u128, index: nat) -> nat {
    if index == 0 {
        (a / 0x1_0000_0000_0000_0000_0000_0000_0000) as nat
    } else if index == 1 {
        (a / 0x1_0000_0000_0000_0000_0000_0000 % 0x1_0000) as nat
    } else if index == 2 {
        (a / 0x1_0000_0000_0000_0000_0000 % 0x1_0000) as nat
    } else if index == 3 {
        (a / 0x1_0000_0000_0000_0000 % 0x1_0000) as nat
    } else if index == 4 {
        (a / 0x1_0000_0000_0000 % 0x1_0000) as nat
    } else if index == 5 {
        (a / 0x1_0000_0000 % 0x1_0000) as nat
    } else if index == 6 {
        (a / 0x1_0000 % 0x1_0000) as nat
    } else {
        (a % 0x1_0000) as nat
    }
}

impl IpAddress {
    /// An address in words: the four numbers of an IPv4 address with dots
    /// between them, or the eight groups of an IPv6 address in hexadecimal
    /// with colons between them, none left out.
    pub open spec fn description(&self) -> Seq<char> {
        match self {
            IpAddress::V4(a) => decimal(octet(*a, 0)) + "."@ + decimal(octet(*a, 1)) + "."@
                + decimal(octet(*a, 2)) + "."@ + decimal(octet(*a, 3)),
            IpAddress::V6(a) => hex(group(*a, 0)) + ":"@ + hex(group(*a, 1)) + ":"@ + hex(
                group(*a, 2),
            ) + ":"@ + hex(group(*a, 3)) + ":"@ + hex(group(*a, 4)) + ":"@ + hex(group(*a, 5))
                + ":"@ + hex(group(*a, 6)) + ":"@ + hex(group(*a, 7)),
        }
    }

    /// The address in words
    pub fn to_string(&self) -> (s: String)
        ensures
            s@ == self.description(),
    {
        match self {
            IpAddress::V4(a) => {
                let a = *a;
                let mut s = decimal_string((a / 0x100_0000) as u64);
                s.append(".");
                let n = decimal_string((a / 0x1_0000 % 256) as u64);
                s.append(n.as_str());
                s.append(".");
                let n = decimal_string((a / 0x100 % 256) as u64);
                s.append(n.as_str());
                s.append(".");
                let n = decimal_string((a % 256) as u64);
                s.append(n.as_str());
                s
            },
            IpAddress::V6(a) => {
                let a = *a;
                let mut s = hex_string((a / 0x1_0000_0000_0000_0000_0000_0000_0000) as u64);
                s.append(":");
                let n = hex_string((a / 0x1_0000_0000_0000_0000_0000_0000 % 0x1_0000) as u64);
                s.append(n.as_str());
                s.append(":");
                let n = hex_string((a / 0x1_0000_0000_0000_0000_0000 % 0x1_0000) as u64);
                s.append(n.as_str());
                s.append(":");
                let n = hex_string((a / 0x1_0000_0000_0000_0000 % 0x1_0000) as u64);
                s.append(n.as_str());
                s.append(":");
                let n = hex_string((a / 0x1_0000_0000_0000 % 0x1_0000) as u64);
                s.append(n.as_str());
                s.append(":");
                let n = hex_string((a / 0x1_0000_0000 % 0x1_0000) as u64);
                s.append(n.as_str());
                s.append(":");
                let n = hex_string((a / 0x1_0000 % 0x1_0000) as u64);
                s.append(n.as_str());
                s.append(":");
                let n = hex_string((a % 0x1_0000) as u64);
                s.append(n.as_str());
                s
            },
        }
    }
}

impl SocketAddress {
    /// An address in words: the IP address, a colon and the port; an IPv6
    /// address stands in square brackets.
    pub open spec fn description(&self) -> Seq<char> {
        match self.ip {
            IpAddress::V4(_) => self.ip.description() + ":"@ + decimal(self.port as nat),
            IpAddress::V6(_) => "["@ + self.ip.description() + "]:"@ + decimal(self.port as nat),
        }
    }

    /// The address in words
    pub fn to_string(&self) -> (s: String)
        ensures
            s@ == self.description(),
    {
        let ip = self.ip.to_string();
        let port = decimal_string(self.port as u64);
        match self.ip {
            IpAddress::V4(_) => {
                let mut s = ip;
                s.append(":");
                s.append(port.as_str());
                s
            },
            IpAddress::V6(_) => {
                let mut s = "[".to_string();
                s.append(ip.as_str());
                s.append("]:");
                s.append(port.as_str());
                s
            },
        }
    }
}

} // verus!
