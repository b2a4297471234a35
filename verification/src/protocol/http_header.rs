//! HTTP header names, in lower case.

use vstd::prelude::*;

verus! {

/// Host header
pub const HOST: &'static str = "host";

/// User-Agent header
pub const USER_AGENT: &'static str = "user-agent";

/// Accept header
pub const ACCEPT: &'static str = "accept";

/// Connection header
pub const CONNECTION: &'static str = "connection";

/// Upgrade header
pub const UPGRADE: &'static str = "upgrade";

/// Origin header
pub const ORIGIN: &'static str = "origin";

/// Sec-WebSocket-Key header
pub const SEC_WEBSOCKET_KEY: &'static str = "sec-websocket-key";

/// Sec-WebSocket-Version header
pub const SEC_WEBSOCKET_VERSION: &'static str = "sec-websocket-version";

/// Sec-WebSocket-Protocol header
pub const SEC_WEBSOCKET_PROTOCOL: &'static str = "sec-websocket-protocol";

/// Sec-WebSocket-Extensions header
pub const SEC_WEBSOCKET_EXTENSIONS: &'static str = "sec-websocket-extensions";

/// Sec-WebSocket-Accept header
pub const SEC_WEBSOCKET_ACCEPT: &'static str = "sec-websocket-accept";

/// Authorization header
pub const AUTHORIZATION: &'static str = "authorization";

/// Cookie header
pub const COOKIE: &'static str = "cookie";

/// Set-Cookie header
pub const SET_COOKIE: &'static str = "set-cookie";

/// Content-Type header
pub const CONTENT_TYPE: &'static str = "content-type";

/// Content-Length header
pub const CONTENT_LENGTH: &'static str = "content-length";

/// Date header
pub const DATE: &'static str = "date";

/// Server header
pub const SERVER: &'static str = "server";

} // verus!
