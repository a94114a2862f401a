//! Call metrics for an observed endpoint: how many calls were made, how many
//! failed, and their total and mean latency in microseconds.
//!
//! The counters wrap around at 2^64, as free-running counters do.
use vstd::prelude::*;

verus! {

/// Aggregated call metrics.
#[derive(Debug, Clone, Copy, Default)]
pub struct Metrics {
    pub total_calls: u64,
    pub total_errors: u64,
    pub total_latency_us: u64,
}

/// `a + b` modulo 2^64.
pub open spec fn wrap_add(a: u64, b: u64) -> u64 {
    ((a + b) % 0x1_0000_0000_0000_0000) as u64
}

impl Metrics {
    /// Number of calls recorded.
    pub fn calls(&self) -> (r: u64)
        ensures
            r == self.total_calls,
    {
        self.total_calls
    }

    /// Number of failed calls recorded.
    pub fn errors(&self) -> (r: u64)
        ensures
            r == self.total_errors,
    {
        self.total_errors
    }

    /// Total latency recorded, in microseconds.
    pub fn latency_us(&self) -> (r: u64)
        ensures
            r == self.total_latency_us,
    {
        self.total_latency_us
    }

    /// Mean latency in microseconds, rounded down; 0 when no call was
    /// recorded.
    pub fn mean_latency_us(&self) -> (r: u64)
        ensures
            r == (if self.total_calls == 0 {
                0
            } else {
                self.total_latency_us / self.total_calls
            }),
    {
        match self.total_latency_us.checked_div(self.total_calls) {
            Some(m) => m,
            None => 0,
        }
    }

    /// Record one call that took `elapsed_us` microseconds and failed when
    /// `is_err`.
    pub fn record(&mut self, elapsed_us: u64, is_err: bool)
        ensures
            final(self).total_calls == wrap_add(old(self).total_calls, 1),
            final(self).total_latency_us == wrap_add(old(self).total_latency_us, elapsed_us),
            final(self).total_errors == (if is_err {
                wrap_add(old(self).total_errors, 1)
            } else {
                old(self).total_errors
            }),
    {
        self.total_calls = self.total_calls.wrapping_add(1);
        self.total_latency_us = self.total_latency_us.wrapping_add(elapsed_us);
        if is_err {
            self.total_errors = self.total_errors.wrapping_add(1);
        }
    }
}

} // verus!
