//! Data exchanged between the manager and its clients.
use vstd::prelude::*;

pub mod event;
pub mod info;
pub mod list;
pub mod request;
pub mod response;

verus! {

/// Id of a channel opened through the manager.
pub type ManagerChannelId = u32;

/// Id of a pending authentication exchange.
pub type ManagerAuthenticationId = u32;

/// Id of a tunnel managed by the manager.
pub type ManagedTunnelId = u32;

/// Id of a connection to a server.
pub type ConnectionId = u32;

} // verus!
