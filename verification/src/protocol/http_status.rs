//! HTTP status codes used in the WebSocket handshake.

use vstd::prelude::*;

verus! {

/// HTTP OK status
pub const OK: u16 = 200;

/// HTTP Switching Protocols status
pub const SWITCHING_PROTOCOLS: u16 = 101;

/// HTTP Bad Request status
pub const BAD_REQUEST: u16 = 400;

/// HTTP Unauthorized status
pub const UNAUTHORIZED: u16 = 401;

/// HTTP Forbidden status
pub const FORBIDDEN: u16 = 403;

/// HTTP Not Found status
pub const NOT_FOUND: u16 = 404;

/// HTTP Method Not Allowed status
pub const METHOD_NOT_ALLOWED: u16 = 405;

/// HTTP Upgrade Required status
pub const UPGRADE_REQUIRED: u16 = 426;

/// HTTP Internal Server Error status
pub const INTERNAL_SERVER_ERROR: u16 = 500;

/// HTTP Service Unavailable status
pub const SERVICE_UNAVAILABLE: u16 = 503;

} // verus!
