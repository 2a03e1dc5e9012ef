//! Readiness and liveness probes and their defaults.

use vstd::prelude::*;

verus! {

/// Seconds after the start of a member before it is probed for readiness.
pub const DEFAULT_READINESS_PROBE_INITIAL_DELAY_SECONDS: i32 = 10;

/// Seconds between two probes for readiness.
pub const DEFAULT_READINESS_PROBE_PERIOD_SECONDS: i32 = 10;

/// Failed probes in a row after which readiness counts as lost.
pub const DEFAULT_READINESS_PROBE_FAILURE_THRESHOLD: i32 = 3;

/// Successful probes in a row after which readiness counts as regained.
pub const DEFAULT_READINESS_PROBE_SUCCESS_THRESHOLD: i32 = 1;

/// Seconds after which a probe for readiness counts as failed.
pub const DEFAULT_READINESS_PROBE_TIMEOUT_SECONDS: i32 = 10;

/// Seconds after the start of a member before it is probed for liveness.
pub const DEFAULT_LIVENESS_PROBE_INITIAL_DELAY_SECONDS: i32 = 10;

/// Seconds between two probes for liveness.
pub const DEFAULT_LIVENESS_PROBE_PERIOD_SECONDS: i32 = 10;

/// Failed probes in a row after which liveness counts as lost.
pub const DEFAULT_LIVENESS_PROBE_FAILURE_THRESHOLD: i32 = 3;

/// Successful probes in a row after which liveness counts as regained.
pub const DEFAULT_LIVENESS_PROBE_SUCCESS_THRESHOLD: i32 = 1;

/// Seconds after which a probe for liveness counts as failed.
pub const DEFAULT_LIVENESS_PROBE_TIMEOUT_SECONDS: i32 = 10;

/// Timing of one health probe. A number that is `None` has not been stated.
#[derive(Clone, Copy, Debug, PartialEq, Eq, Structural)]
pub struct Probe {
    /// Seconds after the start of a member before it is probed.
    pub initial_delay_seconds: Option<i32>,
    /// Seconds between two probes.
    pub period_seconds: Option<i32>,
    /// Failed probes in a row after which the member counts as failing.
    pub failure_threshold: Option<i32>,
    /// Successful probes in a row after which the member counts as well again.
    pub success_threshold: Option<i32>,
    /// Seconds after which a probe counts as failed.
    pub timeout_seconds: Option<i32>,
}

impl Probe {
    /// The probe with no number stated.
    pub open spec fn unset() -> Probe {
        Probe {
            initial_delay_seconds: None,
            period_seconds: None,
            failure_threshold: None,
            success_threshold: None,
            timeout_seconds: None,
        }
    }

    /// The readiness probe of a cluster that states none.
    pub open spec fn readiness_default() -> Probe {
        Probe {
            initial_delay_seconds: Some(DEFAULT_READINESS_PROBE_INITIAL_DELAY_SECONDS),
            period_seconds: Some(DEFAULT_READINESS_PROBE_PERIOD_SECONDS),
            failure_threshold: Some(DEFAULT_READINESS_PROBE_FAILURE_THRESHOLD),
            success_threshold: Some(DEFAULT_READINESS_PROBE_SUCCESS_THRESHOLD),
            timeout_seconds: Some(DEFAULT_READINESS_PROBE_TIMEOUT_SECONDS),
        }
    }

    /// The liveness probe of a cluster that states none.
    pub open spec fn liveness_default() -> Probe {
        Probe {
            initial_delay_seconds: Some(DEFAULT_LIVENESS_PROBE_INITIAL_DELAY_SECONDS),
            period_seconds: Some(DEFAULT_LIVENESS_PROBE_PERIOD_SECONDS),
            failure_threshold: Some(DEFAULT_LIVENESS_PROBE_FAILURE_THRESHOLD),
            success_threshold: Some(DEFAULT_LIVENESS_PROBE_SUCCESS_THRESHOLD),
            timeout_seconds: Some(DEFAULT_LIVENESS_PROBE_TIMEOUT_SECONDS),
        }
    }

    /// A probe with no number stated.
    pub fn default() -> (probe: Probe)
        ensures
            probe == Probe::unset(),
    {
        Probe {
            initial_delay_seconds: None,
            period_seconds: None,
            failure_threshold: None,
            success_threshold: None,
            timeout_seconds: None,
        }
    }
}

/// The two health probes of an ensemble member.
#[derive(Clone, Copy, Debug, PartialEq, Eq, Structural)]
pub struct Probes {
    pub readiness_probe: Option<Probe>,
    pub liveness_probe: Option<Probe>,
}

impl Probes {
    /// The pair with neither probe stated.
    pub open spec fn unset() -> Probes {
        Probes { readiness_probe: None, liveness_probe: None }
    }

    /// The pair with each missing probe replaced by its default as a whole. A probe that
    /// is stated is kept as it is, also where some of its numbers are missing.
    pub open spec fn defaulted(self) -> Probes {
        Probes {
            readiness_probe: match self.readiness_probe {
                Some(_) => self.readiness_probe,
                None => Some(Probe::readiness_default()),
            },
            liveness_probe: match self.liveness_probe {
                Some(_) => self.liveness_probe,
                None => Some(Probe::liveness_default()),
            },
        }
    }

    /// Whether both probes are stated.
    pub open spec fn is_complete(self) -> bool {
        self.readiness_probe is Some && self.liveness_probe is Some
    }

    /// A pair with neither probe stated.
    pub fn new() -> (probes: Probes)
        ensures
            probes == Probes::unset(),
    {
        Probes { readiness_probe: None, liveness_probe: None }
    }

    /// Replaces each missing probe by its default and says whether either was missing.
    pub fn with_defaults(&mut self) -> (changed: bool)
        ensures
            *final(self) == old(self).defaulted(),
            changed == !old(self).is_complete(),
            final(self).is_complete(),
    {
        let mut changed = false;
        if self.readiness_probe.is_none() {
            changed = true;
            self.readiness_probe = Some(
                Probe {
                    initial_delay_seconds: Some(DEFAULT_READINESS_PROBE_INITIAL_DELAY_SECONDS),
                    period_seconds: Some(DEFAULT_READINESS_PROBE_PERIOD_SECONDS),
                    failure_threshold: Some(DEFAULT_READINESS_PROBE_FAILURE_THRESHOLD),
                    success_threshold: Some(DEFAULT_READINESS_PROBE_SUCCESS_THRESHOLD),
                    timeout_seconds: Some(DEFAULT_READINESS_PROBE_TIMEOUT_SECONDS),
                },
            );
        }
        if self.liveness_probe.is_none() {
            changed = true;
            self.liveness_probe = Some(
                Probe {
                    initial_delay_seconds: Some(DEFAULT_LIVENESS_PROBE_INITIAL_DELAY_SECONDS),
                    period_seconds: Some(DEFAULT_LIVENESS_PROBE_PERIOD_SECONDS),
                    failure_threshold: Some(DEFAULT_LIVENESS_PROBE_FAILURE_THRESHOLD),
                    success_threshold: Some(DEFAULT_LIVENESS_PROBE_SUCCESS_THRESHOLD),
                    timeout_seconds: Some(DEFAULT_LIVENESS_PROBE_TIMEOUT_SECONDS),
                },
            );
        }
        changed
    }
}

} // verus!
