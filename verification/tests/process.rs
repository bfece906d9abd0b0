use std::path::PathBuf;

use distant_core::net::common::map::StringMap;
use distant_core::plugin::process::{
    launched_destination, setup_closed_error, setup_timeout_error, command_args, default_error_kind, map_to_args, plugin_error_to_io, setup_outcome,
    PluginError, ProcessPlugin, SetupOutcome, SetupPhase, SetupReply,
};
use distant_core::plugin::Plugin;
use distant_core::protocol::common::error::IoErrorKind;

fn make_plugin(name: &str, path: &str, schemes: Option<Vec<String>>) -> ProcessPlugin {
    ProcessPlugin {
        name: name.to_string(),
        path: PathBuf::from(path),
        schemes,
    }
}

#[test]
fn name_returns_the_configured_name() {
    let plugin = make_plugin("ssh", "/usr/bin/distant-ssh", None);
    assert_eq!(plugin.name(), "ssh");
}

#[test]
fn schemes_defaults_to_name_when_none() {
    let plugin = make_plugin("docker", "/usr/bin/distant-docker", None);
    assert_eq!(plugin.schemes(), vec!["docker".to_string()]);
}

#[test]
fn schemes_returns_configured_schemes_when_some() {
    let plugin = make_plugin(
        "docker",
        "/usr/bin/distant-docker",
        Some(vec!["docker".into(), "docker-compose".into()]),
    );
    assert_eq!(
        plugin.schemes(),
        vec!["docker".to_string(), "docker-compose".to_string()]
    );
}

#[test]
fn schemes_returns_empty_vec_when_configured_as_empty() {
    let plugin = make_plugin("test", "/bin/test", Some(vec![]));
    let schemes = plugin.schemes();
    assert!(schemes.is_empty());
}

#[test]
fn map_to_args_returns_empty_for_empty_map() {
    let map = StringMap::new();
    let args = map_to_args(&map);
    assert!(args.is_empty());
}

#[test]
fn plugin_error_to_io_maps_not_found() {
    let err = PluginError {
        kind: "not_found".to_string(),
        description: "file missing".to_string(),
    };
    let io_err = plugin_error_to_io(err);
    assert_eq!(io_err.0, IoErrorKind::NotFound);
    assert_eq!(io_err.1, "file missing");
}

#[test]
fn plugin_error_to_io_maps_permission_denied() {
    let err = PluginError {
        kind: "permission_denied".to_string(),
        description: "access denied".to_string(),
    };
    let io_err = plugin_error_to_io(err);
    assert_eq!(io_err.0, IoErrorKind::PermissionDenied);
}

#[test]
fn plugin_error_to_io_maps_connection_refused() {
    let err = PluginError {
        kind: "connection_refused".to_string(),
        description: "refused".to_string(),
    };
    let io_err = plugin_error_to_io(err);
    assert_eq!(io_err.0, IoErrorKind::ConnectionRefused);
}

#[test]
fn plugin_error_to_io_maps_unsupported() {
    let err = PluginError {
        kind: "unsupported".to_string(),
        description: "not supported".to_string(),
    };
    let io_err = plugin_error_to_io(err);
    assert_eq!(io_err.0, IoErrorKind::Unsupported);
}

#[test]
fn plugin_error_to_io_maps_unknown_kind_to_other() {
    let err = PluginError {
        kind: "something_else".to_string(),
        description: "mysterious error".to_string(),
    };
    let io_err = plugin_error_to_io(err);
    assert_eq!(io_err.0, IoErrorKind::Other);
    assert_eq!(io_err.1, "mysterious error");
}

#[test]
fn default_error_kind_returns_other() {
    assert_eq!(default_error_kind(), "other");
}


#[test]
fn map_to_args_produces_flag_format() {
    let mut map = StringMap::new();
    map.insert("port".to_string(), "22".to_string());
    let args = map_to_args(&map);
    assert_eq!(args, vec!["--port=22".to_string()]);
}

#[test]
fn map_to_args_keeps_the_order_of_the_options() {
    let mut map = StringMap::new();
    map.insert("host".to_string(), "localhost".to_string());
    map.insert("port".to_string(), "8080".to_string());
    map.insert("host".to_string(), "example.com".to_string());
    assert_eq!(map_to_args(&map), vec!["--host=example.com".to_string(), "--port=8080".to_string()]);
}

#[test]
fn command_args_put_subcommand_and_destination_first() {
    let mut map = StringMap::new();
    map.insert("flag".to_string(), String::new());
    let args = command_args("connect", "ssh://host", &map);
    assert_eq!(args, vec!["connect".to_string(), "ssh://host".to_string(), "--flag=".to_string()]);
}

#[test]
fn setup_outcome_accepts_ready_on_connect_and_destination_on_launch() {
    assert_eq!(setup_outcome("p", SetupPhase::Connect, SetupReply::Ready), Ok(SetupOutcome::Ready));
    assert_eq!(
        setup_outcome("p", SetupPhase::Launch, SetupReply::Destination("ssh://h".to_string())),
        Ok(SetupOutcome::Destination("ssh://h".to_string()))
    );
}

#[test]
fn setup_outcome_rejects_the_wrong_message() {
    assert_eq!(
        setup_outcome("p", SetupPhase::Connect, SetupReply::Destination("x".to_string())),
        Err((IoErrorKind::InvalidData, "plugin 'p' sent destination during connect (expected ready)".to_string()))
    );
    assert_eq!(
        setup_outcome("p", SetupPhase::Launch, SetupReply::Ready),
        Err((IoErrorKind::InvalidData, "plugin 'p' sent ready during launch (expected destination)".to_string()))
    );
    let err = PluginError { kind: "not_found".to_string(), description: "gone".to_string() };
    assert_eq!(
        setup_outcome("p", SetupPhase::Launch, SetupReply::Error(err)),
        Err((IoErrorKind::NotFound, "gone".to_string()))
    );
}

#[test]
fn map_to_args_handles_multiple_entries() {
    let mut map = StringMap::new();
    map.insert("host".to_string(), "localhost".to_string());
    map.insert("port".to_string(), "8080".to_string());
    let args = map_to_args(&map);
    assert_eq!(args.len(), 2);
    assert!(args.contains(&"--host=localhost".to_string()));
    assert!(args.contains(&"--port=8080".to_string()));
}

#[test]
fn map_to_args_handles_empty_value() {
    let mut map = StringMap::new();
    map.insert("flag".to_string(), String::new());
    let args = map_to_args(&map);
    assert_eq!(args, vec!["--flag="]);
}

#[test]
fn setup_timeout_names_plugin_phase_and_time() {
    assert_eq!(
        setup_timeout_error("ssh", SetupPhase::Connect),
        (IoErrorKind::TimedOut, "plugin 'ssh' timed out during connect setup (120s)".to_string())
    );
    assert_eq!(
        setup_timeout_error("docker", SetupPhase::Launch),
        (IoErrorKind::TimedOut, "plugin 'docker' timed out during launch setup (120s)".to_string())
    );
}

#[test]
fn closed_output_during_setup_is_unexpected_eof() {
    assert_eq!(
        setup_closed_error(),
        (IoErrorKind::UnexpectedEof, "plugin process closed stdout during setup".to_string())
    );
}

#[test]
fn launched_destination_must_parse() {
    assert_eq!(launched_destination("ssh", "ssh://h".to_string(), None), Ok("ssh://h".to_string()));
    assert_eq!(
        launched_destination("ssh", "::".to_string(), Some("bad host")),
        Err((IoErrorKind::InvalidData, "plugin 'ssh' returned invalid destination: bad host".to_string()))
    );
}
