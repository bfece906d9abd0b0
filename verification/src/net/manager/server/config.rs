//! Settings of a manager. The plugins it routes to are registered by the program that hosts it.
use vstd::prelude::*;

use crate::std_types::{duration_from_secs, secs_duration, Duration};
use crate::text::copy_str;

verus! {

broadcast use vstd::string::group_string_axioms;

/// Configuration settings for a manager.
pub struct Config {
    /// Scheme to use when none is provided in a destination for launch
    pub launch_fallback_scheme: String,
    /// Scheme to use when none is provided in a destination for connect
    pub connect_fallback_scheme: String,
    /// Buffer size for queue of incoming connections before blocking
    pub connection_buffer_size: usize,
    /// If listening as local user
    pub user: bool,
    /// How often the per-mount monitor polls each mount handle for liveness signals.
    pub mount_health_interval: Duration,
}

impl Default for Config {
    fn default() -> (r: Config)
        ensures
            r.launch_fallback_scheme@ == "ssh"@,
            r.connect_fallback_scheme@ == "distant"@,
            r.connection_buffer_size == 100,
            !r.user,
            r.mount_health_interval == secs_duration(5),
    {
        Config {
            launch_fallback_scheme: copy_str("ssh"),
            connect_fallback_scheme: copy_str("distant"),
            connection_buffer_size: 100,
            user: false,
            mount_health_interval: duration_from_secs(5),
        }
    }
}

} // verus!
