//! The immutable launch configuration handed to the external tournament
//! engine, and the command modes that drive a tournament run.

use vstd::prelude::*;

verus! {

/// Network port the engine's local web server listens on (fixed for this
/// version).
pub const ARENA_PORT: u16 = 3030;

/// Initial clock duration per competitor, in seconds (fixed for this
/// version).
pub const INITIAL_TIME_SECS: u64 = 10;

/// Per-move clock increment, in seconds (fixed for this version).
pub const INCREMENT_SECS: u64 = 1;

/// The fully validated bundle of parameters handed to the external
/// tournament engine.  Built once per command invocation and never mutated
/// afterwards; ownership passes entirely to the engine at launch.
pub struct LaunchConfig {
    /// Network port for the engine's web server.
    pub port: u16,
    /// Initial clock duration, in seconds.
    pub initial_time_secs: u64,
    /// Per-move clock increment, in seconds.
    pub increment_secs: u64,
    /// Competitor artifact paths, in selection order.  The order is
    /// significant: it determines seating in the engine.
    pub binaries: Vec<String>,
    /// The one interpreter path shared by all interpreted competitors.
    pub interpreter: Option<String>,
    /// Path of the static assets served alongside the tournament.
    pub static_assets: Option<String>,
    /// Whether the run is marked for remote live-reporting.
    pub watch: bool,
    /// Credential used for remote reporting, when one is configured.
    pub api_key: Option<String>,
}

impl LaunchConfig {
    /// The configuration invariant: at least one competitor takes part.
    pub open spec fn valid(self) -> bool {
        self.binaries@.len() > 0
    }

    /// Mark the configuration for remote live-reporting.  When no credential
    /// is configured the watch flag is still set and the engine receives no
    /// credential.  Every other field is kept as it was.
    pub fn with_reporting(self, api_key: Option<String>) -> (r: LaunchConfig)
        ensures
            r.watch,
            r.api_key == api_key,
            r.port == self.port,
            r.initial_time_secs == self.initial_time_secs,
            r.increment_secs == self.increment_secs,
            r.binaries == self.binaries,
            r.interpreter == self.interpreter,
            r.static_assets == self.static_assets,
            r.valid() == self.valid(),
    {
        LaunchConfig {
            watch: true,
            api_key,
            ..self
        }
    }
}

/// The three externally visible command modes.  Each invocation dispatches
/// on exactly one of these; no state survives across invocations.
#[derive(Clone, Copy, Debug, PartialEq, Eq, Structural)]
pub enum Command {
    /// Build a launch configuration and hand it to the engine.
    Run,
    /// Like `Run`, but mark the configuration for remote live-reporting
    /// first.
    Watch,
    /// Refresh the scaffolding of existing competitors; no launch.
    Update,
}

impl Command {
    /// Whether this command obtains a launch configuration before acting.
    /// `Run` and `Watch` do; `Update` walks existing competitors instead.
    pub fn needs_launch_config(&self) -> (r: bool)
        ensures
            r == (*self is Run || *self is Watch),
    {
        match self {
            Command::Run => true,
            Command::Watch => true,
            Command::Update => false,
        }
    }

    /// Whether this command marks the configuration for remote reporting.
    pub fn wants_reporting(&self) -> (r: bool)
        ensures
            r == (*self is Watch),
    {
        match self {
            Command::Watch => true,
            _ => false,
        }
    }
}

} // verus!
