//! The connection manager: the data it exchanges with its clients and the bookkeeping and rules
//! of its server.
pub mod client;
pub mod data;
pub mod server;
