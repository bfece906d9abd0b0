//! Tunnels between a local and a remote port.
use vstd::prelude::*;

verus! {

/// Id for a remote tunnel.
pub type TunnelId = u32;

/// Information about an active tunnel.
#[derive(Clone, Debug, PartialEq, Eq)]
pub struct TunnelInfo {
    /// Unique identifier for the tunnel.
    pub id: TunnelId,
    /// Direction of the tunnel (forward or reverse).
    pub direction: TunnelDirection,
    /// The host the tunnel is connected or bound to.
    pub host: String,
    /// The port the tunnel is connected or bound to.
    pub port: u16,
}

/// Direction of a tunnel.
#[derive(Copy, Clone, Debug, PartialEq, Eq, Structural)]
pub enum TunnelDirection {
    /// Forward tunnel: client connects to a remote host:port.
    Forward,
    /// Reverse tunnel: server listens on a host:port for incoming connections.
    Reverse,
}

} // verus!
