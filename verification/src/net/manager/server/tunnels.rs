//! Tunnels the manager runs on behalf of its clients: the ids they get and what is recorded
//! about them.
use vstd::prelude::*;

use crate::net::manager::data::response::ManagedTunnelInfo;
use crate::net::manager::data::{ConnectionId, ManagedTunnelId};
use crate::protocol::common::error::IoErrorKind;
use crate::protocol::common::tunnel::TunnelDirection;
use crate::text::{copy_str, decimal, format_u32, push_str};

verus! {

broadcast use vstd::string::group_string_axioms;

/// Hands out tunnel ids: one after the other, starting at 1 and wrapping around after the
/// largest id.
pub struct TunnelIds {
    next: u32,
}

impl TunnelIds {
    /// The id the next tunnel gets.
    pub closed spec fn peek(&self) -> u32 {
        self.next
    }

    /// An allocator whose first id is 1.
    pub fn new() -> (r: Self)
        ensures
            r.peek() == 1,
    {
        TunnelIds { next: 1 }
    }

    /// Takes the next id.
    pub fn allocate(&mut self) -> (r: ManagedTunnelId)
        ensures
            r == old(self).peek(),
            final(self).peek() == (if old(self).peek() == u32::MAX {
                0
            } else {
                (old(self).peek() + 1) as u32
            }),
    {
        let id = self.next;
        self.next = self.next.wrapping_add(1);
        id
    }
}

/// What is recorded about a forward tunnel: local connections to `bind_port` are relayed to the
/// remote host and port.
pub fn forward_tunnel_info(
    id: ManagedTunnelId,
    connection_id: ConnectionId,
    bind_port: u16,
    remote_host: String,
    remote_port: u16,
) -> (r: ManagedTunnelInfo)
    ensures
        r == (ManagedTunnelInfo {
            id,
            connection_id,
            direction: TunnelDirection::Forward,
            bind_port,
            remote_host,
            remote_port,
        }),
{
    ManagedTunnelInfo {
        id,
        connection_id,
        direction: TunnelDirection::Forward,
        bind_port,
        remote_host,
        remote_port,
    }
}

/// What is recorded about a reverse tunnel: connections to the remote `bind_port` are relayed to
/// the local host and port.
pub fn reverse_tunnel_info(
    id: ManagedTunnelId,
    connection_id: ConnectionId,
    bind_port: u16,
    local_host: String,
    local_port: u16,
) -> (r: ManagedTunnelInfo)
    ensures
        r == (ManagedTunnelInfo {
            id,
            connection_id,
            direction: TunnelDirection::Reverse,
            bind_port,
            remote_host: local_host,
            remote_port: local_port,
        }),
{
    ManagedTunnelInfo {
        id,
        connection_id,
        direction: TunnelDirection::Reverse,
        bind_port,
        remote_host: local_host,
        remote_port: local_port,
    }
}

/// The local address a forward tunnel listens on.
pub open spec fn forward_bind_address(port: u16) -> Seq<char> {
    "127.0.0.1:"@ + decimal(port as nat)
}

/// The local address a forward tunnel listens on: the loopback address and the port.
pub fn forward_bind_address_text(port: u16) -> (r: String)
    ensures
        r@ == forward_bind_address(port),
{
    let mut s = copy_str("127.0.0.1:");
    push_str(&mut s, format_u32(port as u32).as_str());
    s
}

/// The address an incoming connection of a reverse tunnel is relayed to: `host:port`.
pub open spec fn host_port_address(host: Seq<char>, port: u16) -> Seq<char> {
    host + ":"@ + decimal(port as nat)
}

/// The local address that the connections a reverse tunnel accepts are relayed to.
pub fn local_target_address(host: &str, port: u16) -> (r: String)
    ensures
        r@ == host_port_address(host@, port),
{
    let mut s = copy_str(host);
    push_str(&mut s, ":");
    push_str(&mut s, format_u32(port as u32).as_str());
    s
}

/// The message of the error when a forward tunnel cannot listen on its local port.
pub open spec fn bind_failed_text(port: u16, cause: Seq<char>) -> Seq<char> {
    "Failed to bind on port "@ + decimal(port as nat) + ": "@ + cause
}

/// The message of the error when a reverse tunnel cannot start its listener on the remote side.
pub open spec fn remote_listener_failed_text(port: u16, cause: Seq<char>) -> Seq<char> {
    "Failed to start remote listener on port "@ + decimal(port as nat) + ": "@ + cause
}

/// The error of a forward tunnel that cannot listen on its local port: `Other`, naming the port
/// and the cause.
pub fn bind_failed_error(port: u16, cause: &str) -> (r: (IoErrorKind, String))
    ensures
        r.0 == IoErrorKind::Other,
        r.1@ == bind_failed_text(port, cause@),
{
    let mut s = copy_str("Failed to bind on port ");
    push_str(&mut s, format_u32(port as u32).as_str());
    push_str(&mut s, ": ");
    push_str(&mut s, cause);
    (IoErrorKind::Other, s)
}

/// The error of a reverse tunnel whose remote listener cannot be started: `Other`, naming the
/// port and the cause.
pub fn remote_listener_failed_error(port: u16, cause: &str) -> (r: (IoErrorKind, String))
    ensures
        r.0 == IoErrorKind::Other,
        r.1@ == remote_listener_failed_text(port, cause@),
{
    let mut s = copy_str("Failed to start remote listener on port ");
    push_str(&mut s, format_u32(port as u32).as_str());
    push_str(&mut s, ": ");
    push_str(&mut s, cause);
    (IoErrorKind::Other, s)
}

} // verus!
