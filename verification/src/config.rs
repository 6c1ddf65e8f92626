use vstd::prelude::*;
use crate::clock::SECONDS_PER_DAY;
use crate::clock::ShiftedClock;

verus! {

/// How long one connection attempt may take before it is recorded as a
/// connection failure, in seconds. Fixed for every attempt of every run.
pub const CONNECT_TIMEOUT_SECS: u64 = 10;

/// Why a run configuration was rejected.
#[derive(Clone, Copy, PartialEq, Eq, Structural, Debug)]
pub enum ConfigError {
    /// No domain was given: a run needs at least one name to check.
    NoDomains,
}

/// The immutable configuration of one run: the domains to check, in input
/// order (duplicates allowed, checked independently), the look-ahead offset
/// in whole days, and whether the legacy TLS 1.2 RSA profile is skipped.
pub struct RunConfig {
    pub domains: Vec<String>,
    pub days: u32,
    pub modern_defaults_only: bool,
}

impl RunConfig {
    /// A well-formed configuration checks at least one domain.
    pub open spec fn wf(&self) -> bool {
        self.domains@.len() > 0
    }

    /// Build the run configuration, rejecting an empty domain list and
    /// accepting every other input unchanged.
    pub fn new(domains: Vec<String>, days: u32, modern_defaults_only: bool) -> (r: Result<
        RunConfig,
        ConfigError,
    >)
        ensures
            match r {
                Ok(c) => domains@.len() > 0 && c.domains == domains && c.days == days
                    && c.modern_defaults_only == modern_defaults_only && c.wf(),
                Err(e) => domains@.len() == 0 && e is NoDomains,
            },
    {
        if domains.len() == 0 {
            Err(ConfigError::NoDomains)
        } else {
            Ok(RunConfig { domains, days, modern_defaults_only })
        }
    }

    /// The shifted clock this run's certificate verifier consults: the real
    /// instant advanced by exactly the configured number of days.
    pub fn clock(&self) -> (c: ShiftedClock)
        ensures
            c.offset_secs == self.days as u64 * SECONDS_PER_DAY,
    {
        ShiftedClock::new(self.days)
    }
}

} // verus!
