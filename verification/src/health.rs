//! The health check: when the agent ends itself to shed load.

use vstd::prelude::*;

verus! {

/// Seconds between two health checks.
pub const HEALTH_CHECK_INTERVAL_SECS: u64 = 30;

/// The share of memory, in percent, from which on the load counts as high.
pub const HEALTH_THRESHOLD_PERCENT: u64 = 90;

/// `used` of `total` bytes is at or above the threshold. With no memory
/// reported the load does not count as high.
pub open spec fn memory_is_high(used: u64, total: u64) -> bool {
    total > 0 && used * 100 >= HEALTH_THRESHOLD_PERCENT * total
}

/// What the health check decides.
#[derive(Clone, Copy, Debug, PartialEq, Eq, Structural)]
pub enum HealthVerdict {
    /// Go on.
    Healthy,
    /// End the process so that it is started afresh.
    Restart,
}

/// Watches the load of the host.
#[derive(Clone, Copy, Debug)]
pub struct HealthMonitor;

impl HealthMonitor {
    pub fn new() -> (h: HealthMonitor) {
        HealthMonitor
    }

    /// Whether `used` of `total` bytes of memory is at or above the
    /// threshold.
    pub fn memory_high(&self, used: u64, total: u64) -> (b: bool)
        ensures
            b == memory_is_high(used, total),
    {
        let lhs: u128 = (used as u128) * 100;
        let rhs: u128 = 90 * (total as u128);
        total > 0 && lhs >= rhs
    }

    /// Judges one reading: the process restarts if the processor load was
    /// found high or the memory in use is at or above the threshold.
    pub fn judge(&self, cpu_high: bool, used: u64, total: u64) -> (v: HealthVerdict)
        ensures
            v == if cpu_high || memory_is_high(used, total) {
                HealthVerdict::Restart
            } else {
                HealthVerdict::Healthy
            },
    {
        if cpu_high || self.memory_high(used, total) {
            HealthVerdict::Restart
        } else {
            HealthVerdict::Healthy
        }
    }
}

} // verus!
