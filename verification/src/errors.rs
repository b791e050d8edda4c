//! Error classification for adapter construction.

use vstd::prelude::*;

verus! {

/// Why the configured health-check port is unusable.
#[derive(Clone, Copy, Debug, PartialEq, Eq, Structural)]
pub enum ConfigError {
    /// No port value was provided at all.
    MissingPort,
    /// A port value was provided but is not a decimal unsigned 16-bit number.
    MalformedPort,
}

/// Why constructing the adapter failed.
#[derive(Clone, Copy, Debug, PartialEq, Eq, Structural)]
pub enum ConnectError {
    /// The port configuration was absent or malformed; fatal, never retried.
    Configuration(ConfigError),
    /// The readiness probe exhausted its attempts without a healthy response.
    ProbeTimedOut,
    /// Dialing the RPC connection exhausted its attempts without success.
    DialFailed,
}

} // verus!
