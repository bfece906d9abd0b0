//! The state of a client's connection to a server, as the manager reports it.
use vstd::prelude::*;

verus! {

/// State of a connection to a server.
#[derive(Copy, Clone, Debug, PartialEq, Eq, Hash, Structural)]
pub enum ConnectionState {
    /// The connection is up.
    Connected,
    /// The connection dropped and is being re-established.
    Reconnecting,
    /// The connection is gone.
    Disconnected,
}

} // verus!
