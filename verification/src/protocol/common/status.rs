//! Status information reported by a server.
use vstd::prelude::*;

use crate::protocol::common::tunnel::TunnelInfo;

verus! {

/// Aggregated status information from the server.
///
/// Currently contains active tunnel state; future versions may include
/// watcher and process information as backends add support.
#[derive(Clone, Debug, Default, PartialEq, Eq)]
pub struct StatusInfo {
    /// Active tunnels and listeners.
    pub tunnels: Vec<TunnelInfo>,
}

} // verus!
