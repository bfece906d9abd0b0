use std::time::Duration;

use distant_core::protocol::mount::{CacheConfig, MountStatus, ResourceKind};

#[test]
fn mount_status_default_is_active() {
    assert_eq!(MountStatus::default(), MountStatus::Active);
}

#[test]
fn cache_config_defaults() {
    let c = CacheConfig::default();
    assert_eq!(c.attr_ttl, Duration::from_secs(1));
    assert_eq!(c.dir_ttl, Duration::from_secs(1));
    assert_eq!(c.read_ttl, Duration::from_secs(30));
    assert_eq!(c.attr_capacity, 10_000);
    assert_eq!(c.dir_capacity, 1_000);
    assert_eq!(c.read_capacity, 100);
}

#[test]
fn resource_kinds_display_in_lowercase() {
    assert_eq!(ResourceKind::Connection.to_string(), "connection");
    assert_eq!(ResourceKind::Tunnel.to_string(), "tunnel");
    assert_eq!(ResourceKind::Mount.to_string(), "mount");
}
