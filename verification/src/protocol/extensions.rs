//! Names of the `permessage-deflate` extension and its parameters.

use vstd::prelude::*;

verus! {

/// Per-message deflate extension
pub const PERMESSAGE_DEFLATE: &'static str = "permessage-deflate";

/// Per-message deflate client max window bits
pub const CLIENT_MAX_WINDOW_BITS: &'static str = "client_max_window_bits";

/// Per-message deflate server max window bits
pub const SERVER_MAX_WINDOW_BITS: &'static str = "server_max_window_bits";

/// Per-message deflate client no context takeover
pub const CLIENT_NO_CONTEXT_TAKEOVER: &'static str = "client_no_context_takeover";

/// Per-message deflate server no context takeover
pub const SERVER_NO_CONTEXT_TAKEOVER: &'static str = "server_no_context_takeover";

} // verus!
