//! Plugins backed by an external binary that speaks a JSON-lines protocol over stdin/stdout,
//! and the rules that turn what the binary says during setup into outcomes.
//!
//! The binary supports two subcommands:
//!
//! - `<binary> launch <destination> [--key=value ...]` — spawns a short-lived process that
//!   performs a launch operation and prints the resulting destination.
//! - `<binary> connect <destination> [--key=value ...]` — spawns a long-lived process that
//!   acts as a bidirectional distant API proxy over stdin/stdout.
use vstd::prelude::*;

use crate::net::common::map::StringMap;
use crate::plugin::Plugin;
use crate::protocol::common::error::IoErrorKind;
use crate::std_types::PathBuf;
use crate::text::{copy_str, decimal, format_u32, push_str, str_eq, trim, trim_spec};

verus! {

broadcast use vstd::string::group_string_axioms;

/// Adapter that wraps an external binary as a Plugin.
pub struct ProcessPlugin {
    /// Human-readable name for logging and error messages.
    pub name: String,
    /// Path to the external binary.
    pub path: PathBuf,
    /// URI schemes this plugin handles. Defaults to `[name]` if `None`.
    pub schemes: Option<Vec<String>>,
}

/// Clones each string of a list.
fn clone_strings(v: &Vec<String>) -> (r: Vec<String>)
    ensures
        r@.len() == v@.len(),
        forall|i: int| 0 <= i < v@.len() ==> (#[trigger] r@[i])@ == v@[i]@,
{
    let mut r: Vec<String> = Vec::new();
    let mut i: usize = 0;
    while i < v.len()
        invariant
            i <= v@.len(),
            r@.len() == i,
            forall|j: int| 0 <= j < i ==> (#[trigger] r@[j])@ == v@[j]@,
        decreases v@.len() - i,
    {
        r.push(v[i].clone());
        i = i + 1;
    }
    r
}

impl ProcessPlugin {
    /// The name of the plugin.
    pub fn plugin_name(&self) -> (r: &str)
        ensures
            r@ == self.name@,
    {
        self.name.as_str()
    }
}

impl Plugin for ProcessPlugin {
    fn name(&self) -> (r: &str)
        ensures
            r@ == self.name@,
    {
        self.plugin_name()
    }

    fn schemes(&self) -> (r: Vec<String>)
        ensures
            match &self.schemes {
                Some(schemes) => r@.len() == schemes@.len() && forall|i: int|
                    0 <= i < schemes@.len() ==> (#[trigger] r@[i])@ == schemes@[i]@,
                None => r@.len() == 1 && r@[0]@ == self.name@,
            },
    {
        match &self.schemes {
            Some(schemes) => clone_strings(schemes),
            None => {
                let mut v: Vec<String> = Vec::new();
                v.push(self.name.clone());
                v
            },
        }
    }
}

/// An error reported by the binary: a kind name and a description.
#[derive(Clone, Debug, PartialEq, Eq)]
pub struct PluginError {
    /// Name of the kind of error; `other` when the binary gives none.
    pub kind: String,
    /// Description of the error.
    pub description: String,
}

/// The kind an error reported by a binary gets when the binary names none.
pub fn default_error_kind() -> (r: String)
    ensures
        r@ == "other"@,
{
    copy_str("other")
}

/// The command-line flag that passes one option to the binary.
pub open spec fn option_arg(key: Seq<char>, value: Seq<char>) -> Seq<char> {
    "--"@ + key + "="@ + value
}

/// Turns options into command-line flags of the form `--key=value`, one per option, in the
/// order of the options.
pub fn map_to_args(options: &StringMap) -> (r: Vec<String>)
    ensures
        r@.len() == options.pairs().len(),
        forall|i: int|
            0 <= i < r@.len() ==> (#[trigger] r@[i])@ == option_arg(
                options.pairs()[i].0,
                options.pairs()[i].1,
            ),
{
    let entries = options.entries();
    let mut args: Vec<String> = Vec::new();
    let mut i: usize = 0;
    while i < entries.len()
        invariant
            i <= entries@.len(),
            entries@.map_values(|e: (String, String)| (e.0@, e.1@)) == options.pairs(),
            args@.len() == i,
            forall|j: int|
                0 <= j < i ==> (#[trigger] args@[j])@ == option_arg(
                    options.pairs()[j].0,
                    options.pairs()[j].1,
                ),
        decreases entries@.len() - i,
    {
        let mut arg = copy_str("--");
        push_str(&mut arg, entries[i].0.as_str());
        push_str(&mut arg, "=");
        push_str(&mut arg, entries[i].1.as_str());
        proof {
            assert(options.pairs()[i as int] == (entries@[i as int].0@, entries@[i as int].1@));
        }
        args.push(arg);
        i = i + 1;
    }
    args
}

/// The arguments of a run of the binary: the subcommand, the destination, then one flag per
/// option.
pub fn command_args(subcommand: &str, destination: &str, options: &StringMap) -> (r: Vec<String>)
    ensures
        r@.len() == 2 + options.pairs().len(),
        r@[0]@ == subcommand@,
        r@[1]@ == destination@,
        forall|i: int|
            0 <= i < options.pairs().len() ==> (#[trigger] r@[i + 2])@ == option_arg(
                options.pairs()[i].0,
                options.pairs()[i].1,
            ),
{
    let mut r: Vec<String> = Vec::new();
    r.push(copy_str(subcommand));
    r.push(copy_str(destination));
    let flags = map_to_args(options);
    let mut i: usize = 0;
    while i < flags.len()
        invariant
            i <= flags@.len(),
            flags@.len() == options.pairs().len(),
            r@.len() == 2 + i,
            r@[0]@ == subcommand@,
            r@[1]@ == destination@,
            forall|j: int|
                0 <= j < flags@.len() ==> (#[trigger] flags@[j])@ == option_arg(
                    options.pairs()[j].0,
                    options.pairs()[j].1,
                ),
            forall|j: int| 0 <= j < i ==> (#[trigger] r@[j + 2])@ == flags@[j]@,
        decreases flags@.len() - i,
    {
        r.push(flags[i].clone());
        i = i + 1;
    }
    r
}

/// The I/O error kind that the name of an error kind reported by a binary stands for.
pub open spec fn plugin_error_kind(kind: Seq<char>) -> IoErrorKind {
    if kind == "not_found"@ {
        IoErrorKind::NotFound
    } else if kind == "permission_denied"@ {
        IoErrorKind::PermissionDenied
    } else if kind == "connection_refused"@ {
        IoErrorKind::ConnectionRefused
    } else if kind == "unsupported"@ {
        IoErrorKind::Unsupported
    } else {
        IoErrorKind::Other
    }
}

/// Turns an error reported by a binary into the kind and message of an I/O error.
pub fn plugin_error_to_io(err: PluginError) -> (r: (IoErrorKind, String))
    ensures
        r.0 == plugin_error_kind(err.kind@),
        r.1@ == err.description@,
{
    let k = err.kind.as_str();
    let kind = if str_eq(k, "not_found") {
        IoErrorKind::NotFound
    } else if str_eq(k, "permission_denied") {
        IoErrorKind::PermissionDenied
    } else if str_eq(k, "connection_refused") {
        IoErrorKind::ConnectionRefused
    } else if str_eq(k, "unsupported") {
        IoErrorKind::Unsupported
    } else {
        IoErrorKind::Other
    };
    (kind, err.description)
}

/// Which subcommand a setup belongs to.
#[derive(Copy, Clone, Debug, PartialEq, Eq, Structural)]
pub enum SetupPhase {
    /// `connect`: the binary must end setup by saying it is ready.
    Connect,
    /// `launch`: the binary must end setup by naming a destination.
    Launch,
}

/// The first message other than an authentication challenge that a binary sends during setup.
#[derive(Clone, Debug, PartialEq, Eq)]
pub enum SetupReply {
    /// `{"ready": true}`
    Ready,
    /// `{"destination": "..."}`
    Destination(String),
    /// `{"error": {...}}`
    Error(PluginError),
}

/// What a successful setup yields.
#[derive(Clone, Debug, PartialEq, Eq)]
pub enum SetupOutcome {
    /// The binary is ready to act as a proxy.
    Ready,
    /// The binary launched a server at this raw destination.
    Destination(String),
}

/// The message of the error when a binary sends a destination during `connect`.
pub open spec fn destination_during_connect_message(name: Seq<char>) -> Seq<char> {
    "plugin '"@ + name + "' sent destination during connect (expected ready)"@
}

/// The message of the error when a binary says it is ready during `launch`.
pub open spec fn ready_during_launch_message(name: Seq<char>) -> Seq<char> {
    "plugin '"@ + name + "' sent ready during launch (expected destination)"@
}

/// `"plugin '" + name + rest`
fn plugin_message(name: &str, rest: &str) -> (r: String)
    ensures
        r@ == "plugin '"@ + name@ + rest@,
{
    let mut s = copy_str("plugin '");
    push_str(&mut s, name);
    push_str(&mut s, rest);
    s
}

/// Decides the result of a setup from the binary's first message after authentication:
/// `connect` succeeds on a ready message and `launch` on a destination; an error reported by the
/// binary is turned into an I/O error, and the other message of the pair is invalid data.
pub fn setup_outcome(plugin_name: &str, phase: SetupPhase, reply: SetupReply) -> (r: Result<
    SetupOutcome,
    (IoErrorKind, String),
>)
    ensures
        match (phase, reply) {
            (SetupPhase::Connect, SetupReply::Ready) => r == Ok::<
                SetupOutcome,
                (IoErrorKind, String),
            >(SetupOutcome::Ready),
            (SetupPhase::Launch, SetupReply::Destination(d)) => r matches Ok(
                SetupOutcome::Destination(d2),
            ) && d2@ == d@,
            (_, SetupReply::Error(e)) => r matches Err((k, m)) && k == plugin_error_kind(e.kind@)
                && m@ == e.description@,
            (SetupPhase::Connect, SetupReply::Destination(_)) => r matches Err((k, m)) && k
                == IoErrorKind::InvalidData && m@ == destination_during_connect_message(
                plugin_name@,
            ),
            (SetupPhase::Launch, SetupReply::Ready) => r matches Err((k, m)) && k
                == IoErrorKind::InvalidData && m@ == ready_during_launch_message(plugin_name@),
        },
{
    match reply {
        SetupReply::Error(e) => Err(plugin_error_to_io(e)),
        SetupReply::Ready => match phase {
            SetupPhase::Connect => Ok(SetupOutcome::Ready),
            SetupPhase::Launch => Err(
                (
                    IoErrorKind::InvalidData,
                    plugin_message(plugin_name, "' sent ready during launch (expected destination)"),
                ),
            ),
        },
        SetupReply::Destination(d) => match phase {
            SetupPhase::Launch => Ok(SetupOutcome::Destination(d)),
            SetupPhase::Connect => Err(
                (
                    IoErrorKind::InvalidData,
                    plugin_message(plugin_name, "' sent destination during connect (expected ready)"),
                ),
            ),
        },
    }
}

/// What to do with a line read from the binary during setup.
#[derive(Copy, Clone, Debug, PartialEq, Eq)]
pub enum SetupLine<'a> {
    /// The binary closed its output: setup fails with an unexpected end of file.
    Closed,
    /// The line holds only whitespace: read the next one.
    Blank,
    /// The line holds a message, without its surrounding whitespace.
    Message(&'a str),
}

/// Classifies a line read during setup, given the number of bytes the read returned.
pub fn classify_setup_line<'a>(bytes_read: usize, line: &'a str) -> (r: SetupLine<'a>)
    ensures
        bytes_read == 0 ==> r == SetupLine::Closed,
        bytes_read != 0 && trim_spec(line@).len() == 0 ==> r == SetupLine::Blank,
        bytes_read != 0 && trim_spec(line@).len() != 0 ==> (r matches SetupLine::Message(m)
            && m@ == trim_spec(line@)),
{
    if bytes_read == 0 {
        return SetupLine::Closed;
    }
    let trimmed = trim(line);
    if trimmed.unicode_len() == 0 {
        SetupLine::Blank
    } else {
        SetupLine::Message(trimmed)
    }
}

/// Seconds a binary has to finish its setup.
pub const SETUP_TIMEOUT_SECS: u32 = 120;

/// The word of a phase in messages: `connect` or `launch`.
pub open spec fn phase_word(phase: SetupPhase) -> Seq<char> {
    match phase {
        SetupPhase::Connect => "connect"@,
        SetupPhase::Launch => "launch"@,
    }
}

/// The message of the error when a binary does not finish its setup in time.
pub open spec fn timed_out_message(name: Seq<char>, phase: SetupPhase) -> Seq<char> {
    "plugin '"@ + name + "' timed out during "@ + phase_word(phase) + " setup ("@ + decimal(
        SETUP_TIMEOUT_SECS as nat,
    ) + "s)"@
}

/// The error when a binary does not finish its setup in time: `TimedOut`, naming the plugin, the
/// phase and the time it had.
pub fn setup_timeout_error(plugin_name: &str, phase: SetupPhase) -> (r: (IoErrorKind, String))
    ensures
        r.0 == IoErrorKind::TimedOut,
        r.1@ == timed_out_message(plugin_name@, phase),
{
    let mut s = plugin_message(plugin_name, "' timed out during ");
    match phase {
        SetupPhase::Connect => push_str(&mut s, "connect"),
        SetupPhase::Launch => push_str(&mut s, "launch"),
    }
    push_str(&mut s, " setup (");
    push_str(&mut s, format_u32(SETUP_TIMEOUT_SECS).as_str());
    push_str(&mut s, "s)");
    proof {
        reveal_strlit("connect");
        reveal_strlit("launch");
    }
    (IoErrorKind::TimedOut, s)
}

/// The error when a binary closes its output before finishing setup.
pub fn setup_closed_error() -> (r: (IoErrorKind, String))
    ensures
        r.0 == IoErrorKind::UnexpectedEof,
        r.1@ == "plugin process closed stdout during setup"@,
{
    (IoErrorKind::UnexpectedEof, copy_str("plugin process closed stdout during setup"))
}

/// The message of the error when the destination a binary launched does not parse.
pub open spec fn invalid_destination_message(name: Seq<char>, cause: Seq<char>) -> Seq<char> {
    "plugin '"@ + name + "' returned invalid destination: "@ + cause
}

/// The result of a launch whose binary named `destination`, given what parsing that destination
/// gave: the destination when it parsed, else `InvalidData` naming the plugin and the cause.
pub fn launched_destination(
    plugin_name: &str,
    destination: String,
    parse_error: Option<&str>,
) -> (r: Result<String, (IoErrorKind, String)>)
    ensures
        match parse_error {
            None => r == Ok::<String, (IoErrorKind, String)>(destination),
            Some(cause) => r matches Err((k, m)) && k == IoErrorKind::InvalidData && m@
                == invalid_destination_message(plugin_name@, cause@),
        },
{
    match parse_error {
        None => Ok(destination),
        Some(cause) => {
            let mut m = plugin_message(plugin_name, "' returned invalid destination: ");
            push_str(&mut m, cause);
            Err((IoErrorKind::InvalidData, m))
        },
    }
}

} // verus!
