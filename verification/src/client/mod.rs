//! The client side: the configuration and the decisions of the connect
//! driver.

pub mod client;
pub mod config;
pub mod connection;
