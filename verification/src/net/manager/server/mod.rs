//! The manager's server: its bookkeeping of connections, channels, tunnels and mounts, and the
//! rules it follows.
pub mod routing;
pub mod channels;
pub mod authentication;
pub mod dispatch;
pub mod state;
pub mod mount_monitor;
pub mod plugins;
pub mod reconnect;
pub mod tunnels;
pub mod config;
