//! Plugins that connect to and launch distant servers, and the rules for routing a destination
//! to the plugin that handles it.
use vstd::prelude::*;

use crate::protocol::common::error::IoErrorKind;
use crate::text::{copy_str, split_once_str, split_once_str_spec};

pub mod mount;
pub mod process;

verus! {

broadcast use vstd::string::group_string_axioms;

/// Plugin interface used by the manager: the name of the plugin and the URI schemes it handles.
/// Connecting and launching, which talk to the outside world, are added by the program that
/// hosts the plugins.
pub trait Plugin {
    /// Human-readable name for this plugin (e.g. "ssh", "docker").
    /// Used in logging, error messages, and as the default scheme if `schemes()` is not overridden.
    fn name(&self) -> &str;

    /// URI schemes this plugin handles (e.g. `["ssh"]` or `["docker", "docker-compose"]`).
    /// Defaults to a single scheme matching `name()`.
    fn schemes(&self) -> (r: Vec<String>)
        default_ensures
            r@.len() == 1,
    {
        default_schemes(self.name())
    }
}

/// The schemes of a plugin that names none: its name alone.
pub fn default_schemes(name: &str) -> (r: Vec<String>)
    ensures
        r@.len() == 1,
        r@[0]@ == name@,
{
    let mut v: Vec<String> = Vec::new();
    v.push(copy_str(name));
    v
}

/// The scheme of a raw destination: what comes before the first `://`, if it holds one.
pub open spec fn scheme_of(raw: Seq<char>) -> Option<Seq<char>> {
    match split_once_str_spec(raw, "://"@) {
        Some((scheme, _)) => Some(scheme),
        None => None,
    }
}

/// Extracts the scheme portion from a raw destination string.
///
/// Returns `Some("docker")` for `"docker://ubuntu:22.04"`, or `None` if no `://` is present.
pub fn extract_scheme(raw: &str) -> (r: Option<&str>)
    ensures
        match r {
            Some(s) => scheme_of(raw@) == Some(s@),
            None => scheme_of(raw@) is None,
        },
{
    match split_once_str(raw, "://") {
        Some((scheme, _)) => Some(scheme),
        None => None,
    }
}

/// The error of a plugin that cannot launch servers.
pub fn launch_not_supported() -> (r: (IoErrorKind, String))
    ensures
        r.0 == IoErrorKind::Unsupported,
        r.1@ == "launch not supported"@,
{
    (IoErrorKind::Unsupported, copy_str("launch not supported"))
}

/// The error of a plugin that cannot re-establish connections.
pub fn reconnect_not_supported() -> (r: (IoErrorKind, String))
    ensures
        r.0 == IoErrorKind::Unsupported,
        r.1@ == "reconnect not supported"@,
{
    (IoErrorKind::Unsupported, copy_str("reconnect not supported"))
}

} // verus!
