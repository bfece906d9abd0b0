//! Responses that the manager sends to its clients.
use vstd::prelude::*;

use crate::net::manager::data::event::Event;
use crate::net::manager::data::info::ConnectionInfo;
use crate::net::manager::data::list::ConnectionList;
use crate::net::manager::data::{
    ConnectionId, ManagedTunnelId, ManagerAuthenticationId, ManagerChannelId,
};
use crate::protocol::common::tunnel::TunnelDirection;
use crate::protocol::mount::MountInfo;

verus! {

/// Information about a resource of the manager.
#[derive(Clone, Debug)]
pub enum ResourceInfo {
    /// A connection
    Connection(ConnectionInfo),
    /// A managed tunnel
    Tunnel(ManagedTunnelInfo),
    /// A mount
    Mount(MountInfo),
}

/// Information about a tunnel managed by the manager process.
#[derive(Clone, Debug, PartialEq, Eq)]
pub struct ManagedTunnelInfo {
    /// Unique id of the tunnel
    pub id: ManagedTunnelId,
    /// Connection the tunnel goes through
    pub connection_id: ConnectionId,
    /// Direction of the tunnel
    pub direction: TunnelDirection,
    /// Local port the tunnel is bound to (forward) or remote port (reverse)
    pub bind_port: u16,
    /// Host on the other end
    pub remote_host: String,
    /// Port on the other end
    pub remote_port: u16,
}

/// A response sent by the manager. Authentication messages and the responses relayed through a
/// channel are carried as serialized bytes; the version is given as text.
#[derive(Clone, Debug)]
pub enum ManagerResponse {
    /// Acknowledgement that a connection was killed
    Killed,
    /// Indicates that some error occurred during a request
    Error { description: String },
    /// Information about the manager's version
    Version { version: String },
    /// Confirmation of a server being launched, with its raw destination
    Launched { destination: String },
    /// Confirmation of a connection being established
    Connected { id: ConnectionId },
    /// Authentication information being sent to a client, serialized
    Authenticate { id: ManagerAuthenticationId, msg: Vec<u8> },
    /// Information about a specific connection
    Info(ConnectionInfo),
    /// Every resource of the manager: its connections, then its tunnels, then its mounts.
    ///
    /// This is the answer to a list request that names no resource kind. A client that only
    /// knows the connection-list answer cannot decode it: it is a variant of its own on the
    /// wire, next to `List`.
    Resources { resources: Vec<ResourceInfo> },
    /// List of connections in the form of id -> destination
    List(ConnectionList),
    /// Forward a response back to a specific channel that made a request, serialized
    Channel { id: ManagerChannelId, response: Vec<u8> },
    /// Indicates that a channel has been opened
    ChannelOpened { id: ManagerChannelId },
    /// Indicates that a channel has been closed
    ChannelClosed { id: ManagerChannelId },
    /// A managed tunnel has been started
    ManagedTunnelStarted { id: ManagedTunnelId, port: u16 },
    /// A managed tunnel has been closed
    ManagedTunnelClosed,
    /// List of managed tunnels
    ManagedTunnels { tunnels: Vec<ManagedTunnelInfo> },
    /// A mount has been made
    Mounted { id: u32, mount_point: String, backend: String },
    /// Mounts have been removed
    Unmounted { ids: Vec<u32> },
    /// List of mounts
    Mounts { mounts: Vec<MountInfo> },
    /// Subscription started
    Subscribed,
    /// Subscription ended
    Unsubscribed,
    /// An event of a subscription
    Event { event: Event },
    /// A reconnection has been started
    ReconnectInitiated { id: ConnectionId },
}

} // verus!
