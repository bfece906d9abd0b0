//! Servers: their configuration and the rules for queuing replies.
pub mod config;
pub mod reply;
pub mod builder;
