use distant_core::net::client::ConnectionState;
use distant_core::net::common::map::StringMap;
use distant_core::net::manager::data::event::{subscription_wants, Event, EventTopic};
use distant_core::net::manager::data::response::ManagedTunnelInfo;
use distant_core::net::manager::server::mount_monitor::{
    connection_state_to_mount_status, monitor_step, probe_to_status, MonitorAction, MonitorEvent,
};
use distant_core::net::manager::server::plugins::{
    inject_mount_metadata, no_mount_plugin_error, no_plugin_error, no_reconnect, resolve_scheme,
};
use distant_core::net::manager::server::routing::{tag_request_id, untag_origin_id};
use distant_core::net::manager::server::state::{list_target, ListTarget, ManagerState};
use distant_core::plugin::mount::MountProbe;
use distant_core::protocol::common::error::IoErrorKind;
use distant_core::protocol::common::tunnel::TunnelDirection;
use distant_core::protocol::mount::{MountInfo, MountStatus, ResourceKind};

fn tunnel(id: u32, connection_id: u32) -> ManagedTunnelInfo {
    ManagedTunnelInfo {
        id,
        connection_id,
        direction: TunnelDirection::Forward,
        bind_port: 8080,
        remote_host: "localhost".to_string(),
        remote_port: 80,
    }
}

fn mount(id: u32, connection_id: u32) -> MountInfo {
    MountInfo {
        id,
        connection_id,
        backend: "nfs".to_string(),
        mount_point: "/mnt/x".to_string(),
        remote_root: "/".to_string(),
        readonly: false,
        status: MountStatus::Active,
    }
}

#[test]
fn info_should_fail_if_no_connection_found_for_specified_id() {
    let state = ManagerState::new();
    let err = state.info(999).unwrap_err();
    assert_eq!(err.kind, IoErrorKind::NotConnected);
    assert_eq!(err.description, "No connection found");
}

#[test]
fn info_should_return_information_about_established_connection() {
    let mut state = ManagerState::new();
    let mut options = StringMap::new();
    options.insert("key".to_string(), "value".to_string());
    state.add_connection(5, "ssh://host:22".to_string(), options);
    let info = state.info(5).unwrap();
    assert_eq!(info.id, 5);
    assert_eq!(info.destination, "ssh://host:22");
    assert_eq!(info.options.get("key"), Some(&"value".to_string()));
}

#[test]
fn list_should_return_a_list_of_established_connections() {
    let mut state = ManagerState::new();
    assert!(state.list().is_empty());
    state.add_connection(1, "a://one".to_string(), StringMap::new());
    state.add_connection(2, "b://two".to_string(), StringMap::new());
    let list = state.list();
    assert_eq!(list.len(), 2);
    assert_eq!(list.connection_destination(1), Some(&"a://one".to_string()));
    assert_eq!(list.connection_destination(2), Some(&"b://two".to_string()));
}

#[test]
fn kill_should_fail_if_no_connection_found_for_specified_id() {
    let mut state = ManagerState::new();
    let err = state.kill(1).unwrap_err();
    assert_eq!(err.kind, IoErrorKind::NotConnected);
    assert_eq!(err.description, "No connection found");
}

#[test]
fn kill_should_remove_the_connection_and_everything_going_through_it() {
    let mut state = ManagerState::new();
    state.add_connection(1, "a://one".to_string(), StringMap::new());
    state.add_connection(2, "b://two".to_string(), StringMap::new());
    state.open_channel(10, 1).unwrap();
    state.open_channel(11, 2).unwrap();
    state.open_channel(12, 1).unwrap();
    state.add_tunnel(tunnel(20, 1));
    state.add_tunnel(tunnel(21, 2));
    state.add_mount(mount(30, 2));
    state.add_mount(mount(31, 1));
    let plan = state.kill(1).unwrap();
    assert_eq!(plan.channels, vec![10, 12]);
    assert_eq!(plan.tunnels, vec![20]);
    assert_eq!(plan.mounts, vec![31]);
    assert!(state.info(1).is_err());
    assert!(state.info(2).is_ok());
    assert_eq!(state.channel_connection(11), Ok(2));
    assert!(state.channel_connection(10).is_err());
    assert_eq!(state.list_tunnels().len(), 1);
    assert_eq!(state.list_mounts().len(), 1);
    assert_eq!(state.list_mounts()[0].id, 30);
}

#[test]
fn open_channel_requires_an_existing_connection() {
    let mut state = ManagerState::new();
    let err = state.open_channel(1, 7).unwrap_err();
    assert_eq!(err.kind, IoErrorKind::NotConnected);
    assert_eq!(err.description, "Connection does not exist");
    let err = state.close_channel(1).unwrap_err();
    assert_eq!(err.description, "Channel is not open or does not exist");
}

#[test]
fn close_tunnel_reports_missing_tunnels_by_id() {
    let mut state = ManagerState::new();
    state.add_tunnel(tunnel(3, 1));
    assert_eq!(state.close_tunnel(3).unwrap().id, 3);
    let err = state.close_tunnel(3).unwrap_err();
    assert_eq!(err.kind, IoErrorKind::NotFound);
    assert_eq!(err.description, "No managed tunnel with id 3");
}

#[test]
fn unmount_returns_the_ids_that_were_mounted_in_order() {
    let mut state = ManagerState::new();
    state.add_mount(mount(1, 9));
    state.add_mount(mount(2, 9));
    state.add_mount(mount(3, 9));
    let removed = state.unmount(&vec![3, 4, 1, 3]);
    assert_eq!(removed, vec![3, 1]);
    assert_eq!(state.list_mounts().len(), 1);
    assert_eq!(state.list_mounts()[0].id, 2);
}

#[test]
fn set_mount_status_updates_only_that_mount() {
    let mut state = ManagerState::new();
    state.add_mount(mount(1, 9));
    state.add_mount(mount(2, 9));
    assert!(state.set_mount_status(2, MountStatus::Disconnected));
    assert!(!state.set_mount_status(5, MountStatus::Active));
    assert_eq!(state.list_mounts()[0].status, MountStatus::Active);
    assert_eq!(state.list_mounts()[1].status, MountStatus::Disconnected);
}

#[test]
fn list_target_lists_mounts_only_when_asked() {
    assert_eq!(list_target(&vec![]), ListTarget::All);
    assert_eq!(list_target(&vec![ResourceKind::Tunnel, ResourceKind::Mount]), ListTarget::Mounts);
    assert_eq!(list_target(&vec![ResourceKind::Connection]), ListTarget::Connections);
}

#[test]
fn tagged_request_ids_route_back_to_their_channel() {
    let tagged = tag_request_id(42, "req_7");
    assert_eq!(tagged, "42_req_7");
    assert_eq!(untag_origin_id(&tagged), Some((42, "req_7")));
    assert_eq!(untag_origin_id("nochannel"), None);
    assert_eq!(untag_origin_id("x_1"), None);
    assert_eq!(untag_origin_id("+5_1"), Some((5, "1")));
}

#[test]
fn probes_move_mounts_between_states() {
    assert_eq!(probe_to_status(MountProbe::Healthy, &MountStatus::Active), None);
    assert_eq!(probe_to_status(MountProbe::Healthy, &MountStatus::Reconnecting), Some(MountStatus::Active));
    assert_eq!(probe_to_status(MountProbe::Degraded("slow".to_string()), &MountStatus::Disconnected), None);
    assert_eq!(
        probe_to_status(MountProbe::Failed("gone".to_string()), &MountStatus::Active),
        Some(MountStatus::Failed { reason: "gone".to_string() })
    );
    let failed = MountStatus::Failed { reason: "x".to_string() };
    assert_eq!(probe_to_status(MountProbe::Healthy, &failed), None);
    assert_eq!(probe_to_status(MountProbe::Failed("y".to_string()), &failed), None);
}

#[test]
fn connection_states_move_mounts_between_states() {
    assert_eq!(connection_state_to_mount_status(ConnectionState::Reconnecting, &MountStatus::Active), Some(MountStatus::Reconnecting));
    assert_eq!(connection_state_to_mount_status(ConnectionState::Disconnected, &MountStatus::Reconnecting), Some(MountStatus::Disconnected));
    assert_eq!(connection_state_to_mount_status(ConnectionState::Connected, &MountStatus::Disconnected), Some(MountStatus::Active));
    assert_eq!(connection_state_to_mount_status(ConnectionState::Connected, &MountStatus::Active), None);
    let failed = MountStatus::Failed { reason: "x".to_string() };
    assert_eq!(connection_state_to_mount_status(ConnectionState::Connected, &failed), None);
}

#[test]
fn monitor_stops_when_the_mount_fails_or_the_handle_is_gone() {
    assert_eq!(monitor_step(1, &MountStatus::Active, MonitorEvent::Tick(None)), MonitorAction::Exit);
    assert_eq!(monitor_step(1, &MountStatus::Active, MonitorEvent::Closed), MonitorAction::Exit);
    assert_eq!(monitor_step(1, &MountStatus::Active, MonitorEvent::Lagged), MonitorAction::Continue);
    assert_eq!(
        monitor_step(1, &MountStatus::Active, MonitorEvent::Tick(Some(MountProbe::Failed("e".to_string())))),
        MonitorAction::Transition { status: MountStatus::Failed { reason: "e".to_string() }, exit: true }
    );
    let other = Event::ConnectionState { id: 2, state: ConnectionState::Disconnected };
    assert_eq!(monitor_step(1, &MountStatus::Active, MonitorEvent::Event(other)), MonitorAction::Continue);
    let own = Event::ConnectionState { id: 1, state: ConnectionState::Disconnected };
    assert_eq!(
        monitor_step(1, &MountStatus::Active, MonitorEvent::Event(own)),
        MonitorAction::Transition { status: MountStatus::Disconnected, exit: false }
    );
}

#[test]
fn subscriptions_filter_events_by_topic() {
    let event = Event::ConnectionState { id: 7, state: ConnectionState::Reconnecting };
    assert_eq!(event.topic(), EventTopic::Connection);
    assert!(subscription_wants(&vec![EventTopic::All], &event));
    assert!(subscription_wants(&vec![EventTopic::Mount, EventTopic::Connection], &event));
    assert!(!subscription_wants(&vec![EventTopic::Mount], &event));
    assert!(!subscription_wants(&vec![], &event));
}

#[test]
fn scheme_resolution_lowercases_and_falls_back() {
    assert_eq!(resolve_scheme("SSH://host", "distant"), "ssh");
    assert_eq!(resolve_scheme("host:22", "Distant"), "distant");
    let err = no_plugin_error("ftp");
    assert_eq!(err.kind, IoErrorKind::InvalidInput);
    assert_eq!(err.description, "No plugin registered for scheme 'ftp'");
    let err = no_mount_plugin_error("fuse");
    assert_eq!(err.kind, IoErrorKind::NotFound);
    assert_eq!(err.description, "No mount plugin registered for backend 'fuse'");
}

#[test]
fn no_reconnect_option_disables_reconnection() {
    let mut options = StringMap::new();
    assert!(!no_reconnect(&options));
    options.insert("no_reconnect".to_string(), "false".to_string());
    assert!(!no_reconnect(&options));
    options.insert("no_reconnect".to_string(), "true".to_string());
    assert!(no_reconnect(&options));
}

#[test]
fn mount_metadata_is_added_to_the_options() {
    let mut extra = StringMap::new();
    extra.insert("keep".to_string(), "me".to_string());
    extra.insert("destination".to_string(), "old".to_string());
    inject_mount_metadata(&mut extra, 17, "ssh://h".to_string(), "info".to_string());
    assert_eq!(extra.get("keep"), Some(&"me".to_string()));
    assert_eq!(extra.get("connection_id"), Some(&"17".to_string()));
    assert_eq!(extra.get("destination"), Some(&"ssh://h".to_string()));
    assert_eq!(extra.get("log_level"), Some(&"info".to_string()));
    assert_eq!(extra.len(), 4);
}

fn make_tunnel_info() -> ManagedTunnelInfo {
    ManagedTunnelInfo {
        id: 42,
        connection_id: 7,
        direction: TunnelDirection::Forward,
        bind_port: 8080,
        remote_host: "db-host".to_string(),
        remote_port: 5432,
    }
}

#[test]
fn managed_tunnel_info_clone_should_produce_equal_value() {
    let info = make_tunnel_info();
    let cloned = info.clone();
    assert_eq!(info, cloned);
}

#[test]
fn managed_tunnel_info_should_not_equal_when_fields_differ() {
    let info = make_tunnel_info();
    let different = ManagedTunnelInfo { id: 999, ..info.clone() };
    assert_ne!(info, different);
}

#[test]
fn connection_state_event_topic_is_connection() {
    let event = Event::ConnectionState { id: 1, state: ConnectionState::Connected };
    assert_eq!(event.topic(), EventTopic::Connection);
}
