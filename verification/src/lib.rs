//! Core data types and decision logic of distant: the protocol exchanged between clients,
//! servers and plugins, the bookkeeping of the connection manager, and the rules of servers.
pub mod bitset;
pub mod plugin;
pub mod net;
pub mod protocol;
pub mod std_types;
pub mod text;
