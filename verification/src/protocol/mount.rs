//! Mount-related protocol types: configuration, resource identification, and status types used
//! by the mount subsystem and the manager's resource tracking.
use vstd::prelude::*;

use crate::net::common::map::StringMap;
use crate::protocol::common::remote_path::RemotePath;
use crate::std_types::{duration_from_secs, secs_duration, Duration, PathBuf};
use crate::text::copy_str;

verus! {

broadcast use vstd::string::group_string_axioms;

/// Identifies a type of managed resource.
#[derive(Clone, Copy, Debug, PartialEq, Eq, Hash, Structural)]
pub enum ResourceKind {
    /// A distant connection to a remote server.
    Connection,
    /// A TCP tunnel (forward or reverse).
    Tunnel,
    /// A mounted remote filesystem.
    Mount,
}

/// The lowercase name of a kind of resource, as it is displayed.
pub open spec fn resource_kind_name(kind: ResourceKind) -> Seq<char> {
    match kind {
        ResourceKind::Connection => "connection"@,
        ResourceKind::Tunnel => "tunnel"@,
        ResourceKind::Mount => "mount"@,
    }
}

impl ResourceKind {
    /// The lowercase name of this kind of resource, as it is displayed.
    pub fn to_string(&self) -> (r: String)
        ensures
            r@ == resource_kind_name(*self),
    {
        match self {
            ResourceKind::Connection => copy_str("connection"),
            ResourceKind::Tunnel => copy_str("tunnel"),
            ResourceKind::Mount => copy_str("mount"),
        }
    }
}

/// Configuration for mounting a filesystem.
#[derive(Clone, Debug, Default)]
pub struct MountConfig {
    /// Local mount point path.
    ///
    /// Required for FUSE, NFS, and Windows Cloud Files backends. Not used by
    /// the macOS FileProvider backend (macOS manages the CloudStorage folder).
    pub mount_point: Option<PathBuf>,
    /// Remote directory to expose (defaults to the server's current working
    /// directory when `None`).
    pub remote_root: Option<RemotePath>,
    /// Mount as read-only.
    pub readonly: bool,
    /// Cache configuration.
    pub cache: CacheConfig,
    /// Backend-specific key-value data.
    ///
    /// For FileProvider: expects `connection_id` and `destination` keys.
    /// For other backends: currently unused.
    pub extra: StringMap,
}

/// Cache tuning parameters for a mounted filesystem.
///
/// Controls time-to-live durations and maximum capacities for the attribute,
/// directory listing, and read caches. Shorter TTLs give more up-to-date
/// views of remote state at the cost of additional round trips.
#[derive(Clone, Debug)]
pub struct CacheConfig {
    /// Attribute cache TTL.
    pub attr_ttl: Duration,
    /// Directory listing cache TTL.
    pub dir_ttl: Duration,
    /// Read cache TTL.
    pub read_ttl: Duration,
    /// Maximum number of cached attributes.
    pub attr_capacity: usize,
    /// Maximum number of cached directory listings.
    pub dir_capacity: usize,
    /// Maximum number of cached file contents.
    pub read_capacity: usize,
}

impl Default for CacheConfig {
    fn default() -> (r: CacheConfig)
        ensures
            r.attr_ttl == secs_duration(1),
            r.dir_ttl == secs_duration(1),
            r.read_ttl == secs_duration(30),
            r.attr_capacity == 10_000,
            r.dir_capacity == 1_000,
            r.read_capacity == 100,
    {
        CacheConfig {
            attr_ttl: duration_from_secs(1),
            dir_ttl: duration_from_secs(1),
            read_ttl: duration_from_secs(30),
            attr_capacity: 10_000,
            dir_capacity: 1_000,
            read_capacity: 100,
        }
    }
}

/// Lifecycle state of a mount tracked by the manager.
///
/// ```text
///                ┌──────────────┐ connection drop ┌──────────────┐
///     Active ───►│ Reconnecting ├────────────────►│ Disconnected │
///          ▲     └──────┬───────┘                 └──────┬───────┘
///          │            │ reconnect succeeded            │
///          └────────────┘                                │
///                                                        │ permanent
///                                                        ▼
///                                                   ┌────────┐
///                                                   │ Failed │
///                                                   └────────┘
/// ```
///
/// `Failed` is terminal — the only exit is to unmount and remount.
#[derive(Clone, Debug, PartialEq, Eq)]
pub enum MountStatus {
    /// Mount is healthy and serving requests.
    Active,
    /// Underlying connection is reconnecting; the mount will resume
    /// once the connection comes back.
    Reconnecting,
    /// Underlying connection is gone; the mount cannot serve
    /// requests but may still recover via reconnect.
    Disconnected,
    /// Mount has failed permanently. The only exit is to unmount
    /// and remount.
    Failed { reason: String },
}

impl Default for MountStatus {
    fn default() -> (r: MountStatus)
        ensures
            r is Active,
    {
        MountStatus::Active
    }
}

/// Describes an active mount managed by the distant manager.
#[derive(Clone, Debug)]
pub struct MountInfo {
    /// Unique mount identifier.
    pub id: u32,
    /// Connection this mount uses.
    pub connection_id: u32,
    /// Backend name (e.g., "nfs", "fuse", "macos-file-provider", "windows-cloud-files").
    pub backend: String,
    /// Local mount point path.
    pub mount_point: String,
    /// Remote root directory that is mounted.
    pub remote_root: String,
    /// Whether the mount is read-only.
    pub readonly: bool,
    /// Current lifecycle state of the mount.
    pub status: MountStatus,
}

} // verus!
