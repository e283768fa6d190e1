use vstd::prelude::*;

verus! {

/// Seconds between two liveness probes.
pub const HEALTH_INTERVAL_SECS: u64 = 60;

/// What the monitor tells its host after a probe.
#[derive(Clone, Copy, Debug, PartialEq, Eq, Structural)]
pub enum HealthSignal {
    /// The probe succeeded: nothing for the host to do.
    Healthy,
    /// The probe failed: the publisher is unreachable, the host may fall back.
    Degraded,
}

/// The periodic liveness monitor: counts the probes that failed in a row.
pub struct HealthMonitor {
    consecutive_failures: u64,
}

/// Whether a probe's answer is a success: a response whose status is in the
/// 2xx range. `None` stands for a probe that got no response.
pub open spec fn probe_ok(status: Option<u16>) -> bool {
    status matches Some(s) && 200 <= s <= 299
}

/// Whether a probe's answer is a success.
pub fn probe_succeeded(status: Option<u16>) -> (r: bool)
    ensures
        r == probe_ok(status),
{
    match status {
        Some(s) => 200 <= s && s <= 299,
        None => false,
    }
}

impl HealthMonitor {
    pub closed spec fn failures(&self) -> nat {
        self.consecutive_failures as nat
    }

    /// A monitor that has seen no probe.
    pub fn new() -> (r: HealthMonitor)
        ensures
            r.failures() == 0,
    {
        HealthMonitor { consecutive_failures: 0 }
    }

    /// How many probes failed in a row up to now.
    pub fn consecutive_failures(&self) -> (r: u64)
        ensures
            r == self.failures(),
    {
        self.consecutive_failures
    }

    /// Records one probe and answers with the signal for the host: every
    /// failed probe signals degraded mode, every successful one does not and
    /// clears the count of failures.
    pub fn record(&mut self, status: Option<u16>) -> (r: HealthSignal)
        ensures
            probe_ok(status) ==> r == HealthSignal::Healthy && final(self).failures() == 0,
            !probe_ok(status) ==> r == HealthSignal::Degraded,
            !probe_ok(status) && old(self).failures() < u64::MAX ==> final(self).failures()
                == old(self).failures() + 1,
            !probe_ok(status) && old(self).failures() == u64::MAX ==> final(self).failures()
                == old(self).failures(),
    {
        if probe_succeeded(status) {
            self.consecutive_failures = 0;
            HealthSignal::Healthy
        } else {
            self.consecutive_failures = self.consecutive_failures.saturating_add(1);
            HealthSignal::Degraded
        }
    }
}

} // verus!
