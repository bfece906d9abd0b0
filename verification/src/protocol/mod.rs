//! Data types exchanged between distant clients, servers and plugins.
pub mod change;
pub mod common;
pub mod fs_event;
pub mod msg;
pub mod permissions;
pub mod utils;
pub use common::change::{Change, ChangeDetails, ChangeDetailsAttribute, ChangeKind, ChangeKindSet};
pub use msg::Msg;
pub mod mount;
pub mod capabilities;
pub mod version;
