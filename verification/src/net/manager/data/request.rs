//! Requests that clients send to the manager.
use vstd::prelude::*;

use crate::net::common::map::StringMap;
use crate::net::manager::data::event::EventTopic;
use crate::net::manager::data::{
    ConnectionId, ManagedTunnelId, ManagerAuthenticationId, ManagerChannelId,
};
use crate::protocol::mount::{MountConfig, ResourceKind};

verus! {

/// A request sent to the manager. Authentication answers and the requests relayed through a
/// channel are carried as the serialized bytes the manager passes on without reading them.
#[derive(Clone, Debug)]
pub enum ManagerRequest {
    /// Retrieve information about the server's protocol version
    Version,
    /// Launch a server using the manager
    Launch {
        /// Raw destination string to launch
        destination: String,
        /// Additional options specific to the connection
        options: StringMap,
    },
    /// Initiate a connection through the manager
    Connect {
        /// Raw destination string to connect to
        destination: String,
        /// Additional options specific to the connection
        options: StringMap,
    },
    /// Submit some authentication message for the manager to use with an active connection
    Authenticate {
        /// Id of the authentication request that is being responded to
        id: ManagerAuthenticationId,
        /// Response being sent to some active connection, serialized
        msg: Vec<u8>,
    },
    /// Opens a channel for communication with an already-connected server
    OpenChannel {
        /// Id of the connection
        id: ConnectionId,
    },
    /// Sends data through channel
    Channel {
        /// Id of the channel
        id: ManagerChannelId,
        /// Request to send to through the channel, serialized
        request: Vec<u8>,
    },
    /// Closes an open channel
    CloseChannel {
        /// Id of the channel to close
        id: ManagerChannelId,
    },
    /// Retrieve information about a specific connection
    Info { id: ConnectionId },
    /// Kill a specific connection
    Kill { id: ConnectionId },
    /// Retrieve a list of connections, or of other resources when some are named
    List {
        /// Kinds of resource to list; mounts are listed when they are among them
        resources: Vec<ResourceKind>,
    },
    /// Start a forward tunnel managed by the manager process
    ForwardTunnel {
        connection_id: ConnectionId,
        bind_port: u16,
        remote_host: String,
        remote_port: u16,
    },
    /// Start a reverse tunnel managed by the manager process
    ReverseTunnel {
        connection_id: ConnectionId,
        remote_port: u16,
        local_host: String,
        local_port: u16,
    },
    /// Close a managed tunnel
    CloseManagedTunnel { id: ManagedTunnelId },
    /// List all managed tunnels
    ListManagedTunnels,
    /// Mount a remote filesystem through a connection
    Mount {
        /// Connection to mount through
        connection_id: ConnectionId,
        /// Name of the mount backend
        backend: String,
        /// Mount configuration
        config: MountConfig,
    },
    /// Unmount the mounts with the given ids
    Unmount {
        /// Ids of the mounts
        ids: Vec<u32>,
    },
    /// Subscribe to events of the given topics
    Subscribe {
        /// Topics to receive
        topics: Vec<EventTopic>,
    },
    /// Stop receiving events
    Unsubscribe,
    /// Reconnect a connection
    Reconnect {
        /// Id of the connection
        id: ConnectionId,
    },
}

} // verus!
