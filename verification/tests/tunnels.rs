use distant_core::protocol::common::error::IoErrorKind;
use distant_core::net::manager::server::tunnels::{bind_failed_error, remote_listener_failed_error};
use distant_core::net::manager::data::response::ManagedTunnelInfo;
use distant_core::net::manager::server::tunnels::{
    forward_bind_address_text, forward_tunnel_info, local_target_address, reverse_tunnel_info,
    TunnelIds,
};
use distant_core::protocol::common::tunnel::TunnelDirection;

#[test]
fn tunnel_ids_start_at_one_and_count_up() {
    let mut ids = TunnelIds::new();
    assert_eq!(ids.allocate(), 1);
    assert_eq!(ids.allocate(), 2);
    assert_eq!(ids.allocate(), 3);
}

#[test]
fn forward_tunnel_info_records_the_remote_end() {
    let info = forward_tunnel_info(4, 7, 8080, "db-host".to_string(), 5432);
    assert_eq!(
        info,
        ManagedTunnelInfo {
            id: 4,
            connection_id: 7,
            direction: TunnelDirection::Forward,
            bind_port: 8080,
            remote_host: "db-host".to_string(),
            remote_port: 5432,
        }
    );
}

#[test]
fn reverse_tunnel_info_records_the_local_end() {
    let info = reverse_tunnel_info(5, 7, 9000, "localhost".to_string(), 3000);
    assert_eq!(info.direction, TunnelDirection::Reverse);
    assert_eq!(info.bind_port, 9000);
    assert_eq!(info.remote_host, "localhost");
    assert_eq!(info.remote_port, 3000);
}

#[test]
fn tunnel_addresses() {
    assert_eq!(forward_bind_address_text(8080), "127.0.0.1:8080");
    assert_eq!(forward_bind_address_text(0), "127.0.0.1:0");
    assert_eq!(local_target_address("localhost", 3000), "localhost:3000");
}

#[test]
fn tunnel_start_failures_name_the_port_and_cause() {
    assert_eq!(
        bind_failed_error(8080, "address in use"),
        (IoErrorKind::Other, "Failed to bind on port 8080: address in use".to_string())
    );
    assert_eq!(
        remote_listener_failed_error(22, "denied"),
        (IoErrorKind::Other, "Failed to start remote listener on port 22: denied".to_string())
    );
}
