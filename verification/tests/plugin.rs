use distant_core::plugin::{launch_not_supported, reconnect_not_supported};
use distant_core::protocol::common::error::IoErrorKind;
use std::sync::Arc;

use distant_core::plugin::{extract_scheme, Plugin};

/// A minimal plugin relying on the default `schemes()`.
struct MockPlugin {
    plugin_name: &'static str,
}

impl MockPlugin {
    fn new(name: &'static str) -> Self {
        Self { plugin_name: name }
    }
}

impl Plugin for MockPlugin {
    fn name(&self) -> &str {
        self.plugin_name
    }
}

/// A plugin that overrides `schemes()` to return custom schemes.
struct CustomSchemesPlugin;

impl Plugin for CustomSchemesPlugin {
    fn name(&self) -> &str {
        "custom"
    }

    fn schemes(&self) -> Vec<String> {
        vec!["proto-a".to_string(), "proto-b".to_string()]
    }
}

#[test]
fn name_returns_configured_name() {
    let plugin = MockPlugin::new("ssh");
    assert_eq!(plugin.name(), "ssh");
}

#[test]
fn name_returns_different_configured_name() {
    let plugin = MockPlugin::new("docker");
    assert_eq!(plugin.name(), "docker");
}

#[test]
fn default_schemes_returns_vec_containing_name() {
    let plugin = MockPlugin::new("myproto");
    let schemes = plugin.schemes();
    assert_eq!(schemes.len(), 1);
    assert_eq!(schemes[0], "myproto");
}

#[test]
fn overridden_schemes_returns_custom_schemes() {
    let plugin = CustomSchemesPlugin;
    let schemes = plugin.schemes();
    assert_eq!(schemes.len(), 2);
    assert_eq!(schemes[0], "proto-a");
    assert_eq!(schemes[1], "proto-b");
}

#[test]
fn plugin_can_be_used_as_arc_dyn_trait_object() {
    let plugin: Arc<dyn Plugin> = Arc::new(MockPlugin::new("remote"));
    assert_eq!(plugin.name(), "remote");
    assert_eq!(plugin.schemes(), vec!["remote".to_string()]);
}

#[test]
fn extract_scheme_returns_scheme_when_present() {
    assert_eq!(extract_scheme("ssh://host"), Some("ssh"));
    assert_eq!(extract_scheme("docker://ubuntu:22.04"), Some("docker"));
}

#[test]
fn extract_scheme_returns_none_when_absent() {
    assert_eq!(extract_scheme("host:22"), None);
    assert_eq!(extract_scheme("localhost"), None);
}


#[test]
fn extract_scheme_stops_at_the_first_separator() {
    assert_eq!(extract_scheme("a://b://c"), Some("a"));
    assert_eq!(extract_scheme("://host"), Some(""));
    assert_eq!(extract_scheme("ssh:/host"), None);
}

#[test]
fn default_launch_and_reconnect_are_unsupported() {
    assert_eq!(launch_not_supported(), (IoErrorKind::Unsupported, "launch not supported".to_string()));
    assert_eq!(
        reconnect_not_supported(),
        (IoErrorKind::Unsupported, "reconnect not supported".to_string())
    );
}
