//! Configuration of a daemonization attempt: one tunable, the liveness
//! window in milliseconds, with a default of 1000.

use vstd::prelude::*;

verus! {

/// The liveness window used when none is configured, in milliseconds.
pub const DEFAULT_TIMEOUT_MS: u16 = 1000;

/// Options for one daemonization attempt.
///
/// The only tunable is how long, in milliseconds, the intermediate process
/// instance watches the grandchild for an early death before declaring the
/// detachment successful.
pub struct DaemonizeOptions {
    timeout_ms: Option<u16>,
}

impl DaemonizeOptions {
    /// The configured liveness window, if one was set.
    pub closed spec fn spec_timeout_ms(&self) -> Option<u16> {
        self.timeout_ms
    }

    /// The liveness window the state machine will use: the configured value,
    /// or the default when none was set.
    pub open spec fn spec_effective_timeout_ms(&self) -> u16 {
        match self.spec_timeout_ms() {
            Some(t) => t,
            None => DEFAULT_TIMEOUT_MS,
        }
    }

    /// Fresh options with no liveness window configured, so that the default
    /// applies.
    #[must_use]
    pub fn new() -> (r: Self)
        ensures
            r.spec_timeout_ms() is None,
            r.spec_effective_timeout_ms() == DEFAULT_TIMEOUT_MS,
    {
        Self { timeout_ms: None }
    }

    /// Configure the liveness window, in milliseconds.
    #[must_use]
    pub fn set_timeout_ms(self, timeout_ms: u16) -> (r: Self)
        ensures
            r.spec_timeout_ms() == Some(timeout_ms),
            r.spec_effective_timeout_ms() == timeout_ms,
    {
        Self { timeout_ms: Some(timeout_ms) }
    }

    /// The liveness window this attempt will use: the configured value, or
    /// the default when none was set.
    pub fn effective_timeout_ms(&self) -> (r: u16)
        ensures
            r == self.spec_effective_timeout_ms(),
    {
        match self.timeout_ms {
            Some(t) => t,
            None => DEFAULT_TIMEOUT_MS,
        }
    }
}

impl Default for DaemonizeOptions {
    /// The same options `new` builds: no liveness window configured.
    fn default() -> (r: Self)
        ensures
            r.spec_timeout_ms() is None,
            r.spec_effective_timeout_ms() == DEFAULT_TIMEOUT_MS,
    {
        DaemonizeOptions::new()
    }
}

} // verus!
