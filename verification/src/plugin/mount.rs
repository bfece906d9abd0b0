//! Liveness probes of mount backends.
use vstd::prelude::*;

verus! {

/// Backend liveness probe result.
///
/// Each variant maps to a specific mount status transition that the per-mount monitor applies:
///
/// | Probe        | MountStatus transition             |
/// |--------------|------------------------------------|
/// | `Healthy`    | (no change)                        |
/// | `Degraded`   | (no change — informational only)   |
/// | `Failed`     | → `MountStatus::Failed { reason }` |
#[derive(Clone, Debug, PartialEq, Eq)]
pub enum MountProbe {
    /// Backend is alive and serving requests.
    Healthy,
    /// Backend is alive but in a degraded state. The reason is
    /// surfaced for diagnostics; the mount stays in its current
    /// state.
    Degraded(String),
    /// Backend has failed permanently. The monitor transitions
    /// the mount to `MountStatus::Failed` and stops polling.
    Failed(String),
}

} // verus!
