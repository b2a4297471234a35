//! HTTP header values.

use vstd::prelude::*;

verus! {

/// WebSocket upgrade value
pub const WEBSOCKET: &'static str = "websocket";

/// Upgrade connection value
pub const UPGRADE: &'static str = "Upgrade";

/// Keep-Alive connection value
pub const KEEP_ALIVE: &'static str = "keep-alive";

/// Close connection value
pub const CLOSE: &'static str = "close";

/// Application JSON content type
pub const APPLICATION_JSON: &'static str = "application/json";

/// Text plain content type
pub const TEXT_PLAIN: &'static str = "text/plain";

/// Application octet-stream content type
pub const APPLICATION_OCTET_STREAM: &'static str = "application/octet-stream";

} // verus!
