//! Common data types of the protocol.
pub mod change;
pub mod error;
pub mod file_options;
pub mod metadata;
pub mod remote_path;
pub mod status;
pub mod tunnel;
