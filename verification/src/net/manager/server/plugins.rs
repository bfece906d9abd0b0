//! How the manager picks the plugin for a destination, and the options it hands to plugins.
use vstd::prelude::*;

use crate::net::common::map::StringMap;
use crate::plugin::{extract_scheme, scheme_of};
use crate::protocol::common::error::IoErrorKind;
use crate::net::manager::server::state::ManagerError;
use crate::text::{copy_str, decimal, format_u32, push_str, str_eq};

verus! {

broadcast use vstd::string::group_string_axioms;

/// The text that `str::to_lowercase` gives for a text.
pub uninterp spec fn lowercase(s: Seq<char>) -> Seq<char>;

/// `str::to_lowercase`: the contract claims only that the result is the same for the same text
/// (its Unicode case mapping is not stated).
#[verifier::external_body]
fn to_lowercase(s: &str) -> (r: String)
    ensures
        r@ == lowercase(s@),
{
    s.to_lowercase()
}

/// The scheme whose plugin handles a raw destination: the destination's own scheme, else the
/// fallback, in lowercase.
pub open spec fn scheme_for(raw: Seq<char>, fallback: Seq<char>) -> Seq<char> {
    match scheme_of(raw) {
        Some(scheme) => lowercase(scheme),
        None => lowercase(fallback),
    }
}

/// Picks the scheme whose plugin handles a raw destination.
pub fn resolve_scheme(raw_destination: &str, fallback_scheme: &str) -> (r: String)
    ensures
        r@ == scheme_for(raw_destination@, fallback_scheme@),
{
    match extract_scheme(raw_destination) {
        Some(scheme) => to_lowercase(scheme),
        None => to_lowercase(fallback_scheme),
    }
}

/// The error when no plugin is registered for a scheme.
pub open spec fn no_plugin_text(scheme: Seq<char>) -> Seq<char> {
    "No plugin registered for scheme '"@ + scheme + "'"@
}

/// The error the manager answers with when no plugin is registered for the scheme.
pub fn no_plugin_error(scheme: &str) -> (r: ManagerError)
    ensures
        r.kind == IoErrorKind::InvalidInput,
        r.description@ == no_plugin_text(scheme@),
{
    let mut description = copy_str("No plugin registered for scheme '");
    push_str(&mut description, scheme);
    push_str(&mut description, "'");
    ManagerError { kind: IoErrorKind::InvalidInput, description }
}

/// The error when no mount plugin is registered for a backend.
pub open spec fn no_mount_plugin_text(backend: Seq<char>) -> Seq<char> {
    "No mount plugin registered for backend '"@ + backend + "'"@
}

/// The error the manager answers with when no mount plugin is registered for the backend.
pub fn no_mount_plugin_error(backend: &str) -> (r: ManagerError)
    ensures
        r.kind == IoErrorKind::NotFound,
        r.description@ == no_mount_plugin_text(backend@),
{
    let mut description = copy_str("No mount plugin registered for backend '");
    push_str(&mut description, backend);
    push_str(&mut description, "'");
    ManagerError { kind: IoErrorKind::NotFound, description }
}

/// Whether the options of a connection turn automatic reconnection off: `no_reconnect` is
/// `true`.
pub open spec fn reconnect_disabled(options: Seq<(Seq<char>, Seq<char>)>) -> bool {
    exists|i: int| 0 <= i < options.len() && options[i] == ("no_reconnect"@, "true"@)
}

/// Whether reconnection is disabled for a connection made with the options.
pub fn no_reconnect(options: &StringMap) -> (r: bool)
    requires
        options.keys_unique(),
    ensures
        r == reconnect_disabled(options.pairs()),
{
    match options.get("no_reconnect") {
        Some(v) => {
            let r = str_eq(v.as_str(), "true");
            proof {
                if reconnect_disabled(options.pairs()) {
                    let i = choose|i: int| 0 <= i < options.pairs().len() && options.pairs()[i] == (
                        "no_reconnect"@,
                        "true"@,
                    );
                    let j = choose|j: int|
                        0 <= j < options.pairs().len() && options.pairs()[j] == ("no_reconnect"@, v@);
                    if i != j {
                        assert(options.pairs()[i].0 == options.pairs()[j].0);
                    }
                }
            }
            r
        },
        None => false,
    }
}

/// Adds to the options of a mount what the backend may need: the connection's id, its
/// destination and the log level.
pub fn inject_mount_metadata(
    extra: &mut StringMap,
    connection_id: u32,
    destination: String,
    log_level: String,
)
    ensures
        old(extra).keys_unique() ==> final(extra).keys_unique(),
        forall|i: int|
            0 <= i < old(extra).pairs().len() && old(extra).pairs()[i].0 != "connection_id"@
                && old(extra).pairs()[i].0 != "destination"@ && old(extra).pairs()[i].0
                != "log_level"@ ==> final(extra).pairs().contains(#[trigger] old(extra).pairs()[i]),
        final(extra).pairs().contains(("connection_id"@, decimal(connection_id as nat))),
        final(extra).pairs().contains(("destination"@, destination@)),
        final(extra).pairs().contains(("log_level"@, log_level@)),
{
    let ghost d = destination@;
    let ghost l = log_level@;
    let ghost e0 = extra.pairs();
    extra.insert(copy_str("connection_id"), format_u32(connection_id));
    let ghost e1 = extra.pairs();
    extra.insert(copy_str("destination"), destination);
    let ghost e2 = extra.pairs();
    extra.insert(copy_str("log_level"), log_level);
    let ghost e3 = extra.pairs();
    proof {
        reveal_strlit("connection_id");
        reveal_strlit("destination");
        reveal_strlit("log_level");
        assert forall|i: int|
            0 <= i < e0.len() && e0[i].0 != "connection_id"@ && e0[i].0 != "destination"@
                && e0[i].0 != "log_level"@ implies e3.contains(#[trigger] e0[i]) by {
            assert(e0.contains(e0[i]));
            assert(e1.contains(e0[i]));
            assert(e2.contains(e0[i]));
        }
        let c = ("connection_id"@, decimal(connection_id as nat));
        assert(e1.contains(c));
        assert("connection_id"@.len() != "destination"@.len());
        assert(c.0 != "destination"@);
        assert(e2.contains(c));
        assert("connection_id"@.len() != "log_level"@.len());
        assert(c.0 != "log_level"@);
        assert(e3.contains(c));
        let dd = ("destination"@, d);
        assert(e2.contains(dd));
        assert("destination"@.len() != "log_level"@.len());
        assert(dd.0 != "log_level"@);
        assert(e3.contains(dd));
    }
}

} // verus!
