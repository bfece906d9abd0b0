//! Settings of a server: how long to pause between passes over a connection, how often to send
//! heartbeats, and when to shut down on its own.
use vstd::prelude::*;

use crate::std_types::{duration_from_millis, duration_from_secs, millis_duration, secs_duration, Duration};
use crate::text::{eq_ignore_case, split_once, split_once_spec, str_eq_ignore_ascii_case, trim, trim_spec};

verus! {

broadcast use vstd::string::group_string_axioms;

/// Represents a general-purpose set of properties tied with a server instance
#[derive(Clone, Debug, PartialEq, Eq)]
pub struct ServerConfig {
    /// Time to wait inbetween connection read/write when nothing was read or written on last pass
    pub connection_sleep: Duration,
    /// Minimum time to wait inbetween sending heartbeat messages
    pub connection_heartbeat: Duration,
    /// Rules for how a server will shutdown automatically
    pub shutdown: Shutdown,
}

impl ServerConfig {
    /// The default configuration: pause 1 ms between passes, send heartbeats every 5 s, never
    /// shut down on its own.
    pub open spec fn default_spec() -> ServerConfig {
        ServerConfig {
            connection_sleep: millis_duration(1),
            connection_heartbeat: secs_duration(5),
            shutdown: Shutdown::Never,
        }
    }
}

impl Default for ServerConfig {
    fn default() -> (r: ServerConfig)
        ensures
            r == ServerConfig::default_spec(),
    {
        ServerConfig {
            connection_sleep: duration_from_millis(1),
            connection_heartbeat: duration_from_secs(5),
            shutdown: Shutdown::default(),
        }
    }
}

/// Rules for how a server will shut itself down automatically
#[derive(Copy, Clone, Debug, PartialEq, Eq)]
pub enum Shutdown {
    /// Server should shutdown immediately after duration exceeded
    After(Duration),
    /// Server should shutdown after no connections for over duration time
    Lonely(Duration),
    /// No shutdown logic will be applied to the server
    Never,
}

impl Shutdown {
    /// Return duration associated with shutdown if it has one
    pub fn duration(&self) -> (r: Option<Duration>)
        ensures
            r == match *self {
                Shutdown::Never => None,
                Shutdown::After(x) => Some(x),
                Shutdown::Lonely(x) => Some(x),
            },
    {
        match self {
            Shutdown::Never => None,
            Shutdown::After(x) => Some(*x),
            Shutdown::Lonely(x) => Some(*x),
        }
    }

    /// Reads the form of a shutdown rule: `never` (in any case), or a key and a value separated
    /// by `=`, where the key is `after` or `lonely` (in any case, whitespace around it ignored)
    /// and the value, whitespace around it removed, is the number of seconds. Turning the value
    /// into a duration is left to the caller.
    pub fn parse_form(s: &str) -> (r: Result<ShutdownForm, ShutdownParseError>)
        ensures
            match r {
                Ok(ShutdownForm::Never) => eq_ignore_case(s@, "never"@),
                Ok(ShutdownForm::After(v)) => !eq_ignore_case(s@, "never"@) && (split_once_spec(
                    s@,
                    '=',
                ) matches Some((k, w)) && eq_ignore_case(trim_spec(k), "after"@) && v@
                    == trim_spec(w)),
                Ok(ShutdownForm::Lonely(v)) => !eq_ignore_case(s@, "never"@) && (split_once_spec(
                    s@,
                    '=',
                ) matches Some((k, w)) && !eq_ignore_case(trim_spec(k), "after"@)
                    && eq_ignore_case(trim_spec(k), "lonely"@) && v@ == trim_spec(w)),
                Err(ShutdownParseError::MissingKey) => !eq_ignore_case(s@, "never"@)
                    && split_once_spec(s@, '=') is None,
                Err(ShutdownParseError::UnknownKey) => !eq_ignore_case(s@, "never"@)
                    && (split_once_spec(s@, '=') matches Some((k, w)) && !eq_ignore_case(
                    trim_spec(k),
                    "after"@,
                ) && !eq_ignore_case(trim_spec(k), "lonely"@)),
                Err(_) => false,
            },
    {
        if str_eq_ignore_ascii_case(s, "never") {
            return Ok(ShutdownForm::Never);
        }
        match split_once(s, '=') {
            None => Err(ShutdownParseError::MissingKey),
            Some((left, right)) => {
                let left = trim(left);
                let right = trim(right);
                if str_eq_ignore_ascii_case(left, "after") {
                    Ok(ShutdownForm::After(right))
                } else if str_eq_ignore_ascii_case(left, "lonely") {
                    Ok(ShutdownForm::Lonely(right))
                } else {
                    Err(ShutdownParseError::UnknownKey)
                }
            },
        }
    }
}

impl Default for Shutdown {
    /// By default, shutdown is never
    fn default() -> (r: Shutdown)
        ensures
            r == Shutdown::Never,
    {
        Shutdown::Never
    }
}

/// The form of a shutdown rule, with the number of seconds still as text.
#[derive(Copy, Clone, Debug, PartialEq, Eq)]
pub enum ShutdownForm<'a> {
    /// `never`
    Never,
    /// `after=<seconds>`
    After(&'a str),
    /// `lonely=<seconds>`
    Lonely(&'a str),
}

/// Parsing errors that can occur for [`Shutdown`]
#[derive(Clone, Debug, PartialEq, Eq)]
pub enum ShutdownParseError {
    /// The number of seconds after `after=` is not a number; the text says why.
    BadValueForAfter(String),
    /// The number of seconds after `lonely=` is not a number; the text says why.
    BadValueForLonely(String),
    /// The rule has no `=`
    MissingKey,
    /// The key is neither `after` nor `lonely`
    UnknownKey,
}

/// The text of a parse error, as it is displayed.
pub open spec fn parse_error_text(e: ShutdownParseError) -> Seq<char> {
    match e {
        ShutdownParseError::BadValueForAfter(why) => "Bad value for after: "@ + why@,
        ShutdownParseError::BadValueForLonely(why) => "Bad value for lonely: "@ + why@,
        ShutdownParseError::MissingKey => "Missing key"@,
        ShutdownParseError::UnknownKey => "Unknown key"@,
    }
}

impl ShutdownParseError {
    /// The text of the error, as it is displayed.
    pub fn to_string(&self) -> (r: String)
        ensures
            r@ == parse_error_text(*self),
    {
        match self {
            ShutdownParseError::BadValueForAfter(why) => {
                let mut s = crate::text::copy_str("Bad value for after: ");
                crate::text::push_str(&mut s, why.as_str());
                s
            },
            ShutdownParseError::BadValueForLonely(why) => {
                let mut s = crate::text::copy_str("Bad value for lonely: ");
                crate::text::push_str(&mut s, why.as_str());
                s
            },
            ShutdownParseError::MissingKey => crate::text::copy_str("Missing key"),
            ShutdownParseError::UnknownKey => crate::text::copy_str("Unknown key"),
        }
    }
}

} // verus!
