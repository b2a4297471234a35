//! The server side: the registry of connections, the rate limiter, the
//! configuration and the decisions of the accept loop.

pub mod config;
pub mod error;
pub mod handler;
pub mod http;
pub mod manager;
pub mod rate_limit;
pub mod server;
pub mod upgrade;
