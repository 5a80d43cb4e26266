//! The application configuration schema. The loader that fills it from a
//! file lives with the surrounding application; the shapes live here so
//! the rest of the crate can speak of them.

use vstd::prelude::*;

verus! {

/// Telemetry backend settings: the DSN the client is initialized with.
/// An empty `api` means telemetry is disabled.
#[derive(Debug, Clone)]
pub struct Sentry {
    pub api: String,
}

impl Default for Sentry {
    /// Telemetry is disabled by default: an empty DSN.
    fn default() -> (r: Sentry)
        ensures
            r.api@.len() == 0,
    {
        Sentry { api: String::new() }
    }
}

/// The application configuration: whether this is a production
/// deployment, and the telemetry settings.
#[derive(Debug)]
pub struct Config {
    pub is_production: bool,
    pub sentry: Sentry,
}

} // verus!
