//! Networking: the connection manager's data and rules, and the servers' configuration.
pub mod client;
pub mod common;
pub mod manager;
pub mod server;
