//! The process configuration: server limits, upstream credentials and
//! tracing options. The surrounding binary reads these from a settings file
//! and hands them over as plain values.

use vstd::prelude::*;

verus! {

pub struct Settings {
    pub server: Server,
    pub twitch: Twitch,
    pub tracing: Tracing,
}

pub struct Server {
    pub concurrency_limit: Option<usize>,
    /// Per-request timeout in seconds.
    pub timeout: Option<u64>,
}

impl Default for Server {
    /// No limits configured: the binary falls back to its built-in defaults.
    fn default() -> (s: Server)
        ensures
            s.concurrency_limit is None,
            s.timeout is None,
    {
        Server { concurrency_limit: None, timeout: None }
    }
}

/// The credentials of the client-credentials OAuth2 grant, immutable for the
/// process lifetime.
pub struct Twitch {
    pub client_id: String,
    pub client_secret: String,
}

pub struct Tracing {
    pub archer: Option<Archer>,
}

impl Default for Tracing {
    fn default() -> (t: Tracing)
        ensures
            t.archer is None,
    {
        Tracing { archer: None }
    }
}

pub struct Archer {
    pub address: String,
    pub certificate: String,
}

} // verus!
