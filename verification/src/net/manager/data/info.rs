//! Information about a connection of the manager.
use vstd::prelude::*;

use crate::net::common::map::StringMap;
use crate::net::manager::data::ConnectionId;

verus! {

/// Information about a specific connection
#[derive(Clone, Debug)]
pub struct ConnectionInfo {
    /// Connection's id
    pub id: ConnectionId,
    /// Raw destination string (e.g. `"docker://ubuntu:22.04"` or `"ssh://host:22"`).
    pub destination: String,
    /// Additional options associated with this connection
    pub options: StringMap,
}

} // verus!
