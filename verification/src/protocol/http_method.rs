//! HTTP methods.

use vstd::prelude::*;

verus! {

/// HTTP GET method
pub const GET: &'static str = "GET";

/// HTTP HEAD method
pub const HEAD: &'static str = "HEAD";

/// HTTP POST method
pub const POST: &'static str = "POST";

/// HTTP PUT method
pub const PUT: &'static str = "PUT";

/// HTTP DELETE method
pub const DELETE: &'static str = "DELETE";

/// HTTP CONNECT method
pub const CONNECT: &'static str = "CONNECT";

/// HTTP OPTIONS method
pub const OPTIONS: &'static str = "OPTIONS";

/// HTTP TRACE method
pub const TRACE: &'static str = "TRACE";

/// HTTP PATCH method
pub const PATCH: &'static str = "PATCH";

} // verus!
