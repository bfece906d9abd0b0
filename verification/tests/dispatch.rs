use distant_core::net::common::map::StringMap;
use distant_core::net::manager::data::request::ManagerRequest;
use distant_core::net::manager::data::response::{ManagerResponse, ResourceInfo};
use distant_core::net::manager::server::tunnels::forward_tunnel_info;
use distant_core::net::manager::server::authentication::AuthRegistry;
use distant_core::net::manager::server::dispatch::{decide, unmounted_response, Handling};
use distant_core::net::manager::server::state::ManagerState;
use distant_core::protocol::mount::{MountConfig, ResourceKind};

fn error_of(h: Handling) -> String {
    match h {
        Handling::Respond(ManagerResponse::Error { description }) => description,
        _ => panic!("expected an error response"),
    }
}

fn setup() -> (ManagerState, AuthRegistry, Vec<String>) {
    let mut state = ManagerState::new();
    state.add_connection(1, "ssh://host:22".to_string(), StringMap::new());
    (state, AuthRegistry::new(), vec!["fuse".to_string()])
}

#[test]
fn requests_about_missing_things_are_answered_with_errors() {
    let (mut state, mut auth, backends) = setup();
    let mut d = |r| decide(&mut state, &mut auth, &backends, r);
    assert_eq!(error_of(d(ManagerRequest::Info { id: 9 })), "No connection found");
    assert_eq!(error_of(d(ManagerRequest::Kill { id: 9 })), "No connection found");
    assert_eq!(error_of(d(ManagerRequest::Reconnect { id: 9 })), "No connection found");
    assert_eq!(error_of(d(ManagerRequest::OpenChannel { id: 9 })), "Connection does not exist");
    assert_eq!(
        error_of(d(ManagerRequest::Channel { id: 4, request: vec![1] })),
        "Channel is not open or does not exist"
    );
    assert_eq!(
        error_of(d(ManagerRequest::CloseChannel { id: 4 })),
        "Channel is not open or does not exist"
    );
    assert_eq!(
        error_of(d(ManagerRequest::CloseManagedTunnel { id: 12 })),
        "No managed tunnel with id 12"
    );
    assert_eq!(
        error_of(d(ManagerRequest::Authenticate { id: 3, msg: vec![] })),
        "Invalid authentication id"
    );
    assert_eq!(
        error_of(d(ManagerRequest::ForwardTunnel {
            connection_id: 9,
            bind_port: 1,
            remote_host: "h".to_string(),
            remote_port: 2
        })),
        "Connection does not exist"
    );
}

#[test]
fn mount_checks_backend_before_connection() {
    let (mut state, mut auth, backends) = setup();
    let h = decide(
        &mut state,
        &mut auth,
        &backends,
        ManagerRequest::Mount { connection_id: 9, backend: "nfs".to_string(), config: MountConfig::default() },
    );
    assert_eq!(error_of(h), "No mount plugin registered for backend 'nfs'");
    let h = decide(
        &mut state,
        &mut auth,
        &backends,
        ManagerRequest::Mount { connection_id: 9, backend: "fuse".to_string(), config: MountConfig::default() },
    );
    assert_eq!(error_of(h), "Connection does not exist");
    match decide(
        &mut state,
        &mut auth,
        &backends,
        ManagerRequest::Mount { connection_id: 1, backend: "fuse".to_string(), config: MountConfig::default() },
    ) {
        Handling::Mount { connection_id, backend, destination, .. } => {
            assert_eq!(connection_id, 1);
            assert_eq!(backend, "fuse");
            assert_eq!(destination, "ssh://host:22");
        }
        _ => panic!("expected a mount"),
    }
}

#[test]
fn kill_forgets_the_connection_and_its_channels() {
    let (mut state, mut auth, backends) = setup();
    state.open_channel(7, 1).unwrap();
    match decide(&mut state, &mut auth, &backends, ManagerRequest::Kill { id: 1 }) {
        Handling::Kill { connection_id, plan } => {
            assert_eq!(connection_id, 1);
            assert_eq!(plan.channels, vec![7]);
        }
        _ => panic!("expected a kill"),
    }
    assert!(!state.has_connection(1));
    assert_eq!(
        error_of(decide(&mut state, &mut auth, &backends, ManagerRequest::CloseChannel { id: 7 })),
        "Channel is not open or does not exist"
    );
}

#[test]
fn lists_and_simple_requests_are_answered_from_the_records() {
    let (mut state, mut auth, backends) = setup();
    match decide(
        &mut state,
        &mut auth,
        &backends,
        ManagerRequest::List { resources: vec![ResourceKind::Connection] },
    ) {
        Handling::Respond(ManagerResponse::List(list)) => {
            assert_eq!(list.connection_destination(1), Some(&"ssh://host:22".to_string()));
        }
        _ => panic!("expected a list"),
    }
    match decide(
        &mut state,
        &mut auth,
        &backends,
        ManagerRequest::List { resources: vec![ResourceKind::Mount] },
    ) {
        Handling::Respond(ManagerResponse::Mounts { mounts }) => assert!(mounts.is_empty()),
        _ => panic!("expected mounts"),
    }
    assert!(matches!(
        decide(&mut state, &mut auth, &backends, ManagerRequest::Unsubscribe),
        Handling::Respond(ManagerResponse::Unsubscribed)
    ));
    assert!(matches!(
        decide(&mut state, &mut auth, &backends, ManagerRequest::Reconnect { id: 1 }),
        Handling::Reconnect { connection_id: 1 }
    ));
    assert!(matches!(
        decide(&mut state, &mut auth, &backends, ManagerRequest::OpenChannel { id: 1 }),
        Handling::OpenChannel { connection_id: 1 }
    ));
    match decide(&mut state, &mut auth, &backends, ManagerRequest::Info { id: 1 }) {
        Handling::Respond(ManagerResponse::Info(info)) => assert_eq!(info.destination, "ssh://host:22"),
        _ => panic!("expected info"),
    }
}

#[test]
fn authentication_answer_is_handed_on_once() {
    let (mut state, mut auth, backends) = setup();
    auth.expect(3);
    assert!(matches!(
        decide(&mut state, &mut auth, &backends, ManagerRequest::Authenticate { id: 3, msg: vec![1] }),
        Handling::Authenticate { id: 3, .. }
    ));
    assert_eq!(
        error_of(decide(&mut state, &mut auth, &backends, ManagerRequest::Authenticate { id: 3, msg: vec![] })),
        "Invalid authentication id"
    );
}

#[test]
fn empty_list_request_reports_every_resource() {
    let (mut state, mut auth, backends) = setup();
    state.add_tunnel(forward_tunnel_info(4, 1, 8080, "db".to_string(), 5432));
    match decide(&mut state, &mut auth, &backends, ManagerRequest::List { resources: vec![] }) {
        Handling::Respond(ManagerResponse::Resources { resources }) => {
            assert_eq!(resources.len(), 2);
            match &resources[0] {
                ResourceInfo::Connection(info) => {
                    assert_eq!(info.id, 1);
                    assert_eq!(info.destination, "ssh://host:22");
                }
                _ => panic!("expected the connection first"),
            }
            match &resources[1] {
                ResourceInfo::Tunnel(t) => assert_eq!(t.id, 4),
                _ => panic!("expected the tunnel second"),
            }
        }
        _ => panic!("expected every resource"),
    }
}

#[test]
fn unmounted_answer_lists_only_successful_unmounts() {
    match unmounted_response(&vec![(1, true), (2, false), (3, true)]) {
        ManagerResponse::Unmounted { ids } => assert_eq!(ids, vec![1, 3]),
        _ => panic!("expected unmounted"),
    }
}
