//! WebSocket protocol constants.

use vstd::prelude::*;

verus! {

/// WebSocket protocol version
pub const WEBSOCKET_VERSION: &'static str = "13";

/// WebSocket upgrade header
pub const HEADER_UPGRADE: &'static str = "upgrade";

/// WebSocket connection header
pub const HEADER_CONNECTION: &'static str = "connection";

/// WebSocket key header
pub const HEADER_SEC_WEBSOCKET_KEY: &'static str = "sec-websocket-key";

/// WebSocket version header
pub const HEADER_SEC_WEBSOCKET_VERSION: &'static str = "sec-websocket-version";

/// WebSocket protocol header
pub const HEADER_SEC_WEBSOCKET_PROTOCOL: &'static str = "sec-websocket-protocol";

/// WebSocket extensions header
pub const HEADER_SEC_WEBSOCKET_EXTENSIONS: &'static str = "sec-websocket-extensions";

/// WebSocket accept header
pub const HEADER_SEC_WEBSOCKET_ACCEPT: &'static str = "sec-websocket-accept";

/// WebSocket magic string for accept calculation
pub const WEBSOCKET_MAGIC: &'static str = "258EAFA5-E914-47DA-95CA-C5AB0DC85B11";

/// Maximum frame size (default): 16 MiB
pub const DEFAULT_MAX_FRAME_SIZE: usize = 16 * 1024 * 1024;

/// Maximum message size (default): 64 MiB
pub const DEFAULT_MAX_MESSAGE_SIZE: usize = 64 * 1024 * 1024;

/// Default handshake timeout in milliseconds
pub const DEFAULT_HANDSHAKE_TIMEOUT_MS: u64 = 10_000;

/// Default idle timeout in milliseconds (5 minutes)
pub const DEFAULT_IDLE_TIMEOUT_MS: u64 = 300_000;

/// WebSocket key length in bytes
pub const WEBSOCKET_KEY_LEN: usize = 16;

/// WebSocket accept value length in bytes
pub const WEBSOCKET_ACCEPT_LEN: usize = 28;

/// Maximum header size: 8 KiB
pub const MAX_HEADER_SIZE: usize = 8192;

/// Largest payload of a control frame
pub const MAX_CONTROL_PAYLOAD_SIZE: usize = 125;

/// Minimum close frame payload size
pub const MIN_CLOSE_PAYLOAD_SIZE: usize = 2;

/// Maximum close reason size
pub const MAX_CLOSE_REASON_SIZE: usize = 123;

} // verus!
