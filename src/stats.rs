use vstd::prelude::*;
use vstd::rwlock::{RwLock, RwLockPredicate};
use crate::counters::{after, Counters, Operation};

verus! {

/// The lock's predicate: every pair of counts is a valid state.
pub struct AnyCounts {}

impl RwLockPredicate<Counters> for AnyCounts {
    open spec fn inv(self, v: Counters) -> bool {
        true
    }
}

/// The usage counts of a running server, shared by every request handler.
///
/// The counts sit behind a lock: each update takes it for exactly one
/// increment, so updates from concurrent callers are serialized and none is
/// lost or applied twice.
pub struct UsageStats {
    counters: RwLock<Counters, AnyCounts>,
}

impl UsageStats {
    /// A store whose counts are both zero.
    pub fn new() -> (r: UsageStats) {
        UsageStats { counters: RwLock::new(Counters::new(), Ghost(AnyCounts {})) }
    }

    /// Counts one use of `op`. Returns the counts as this call found them and
    /// as it left them: both are read and written under one hold of the lock,
    /// so the second is the first with exactly this use added.
    pub fn record(&self, op: Operation) -> (r: (Counters, Counters))
        ensures
            r.1 == after(r.0, op),
    {
        let (mut c, handle) = self.counters.acquire_write();
        let found = c;
        c.increment(op);
        handle.release_write(c);
        (found, c)
    }

    /// Counts one Fahrenheit-to-Celsius conversion.
    pub fn record_to_celsius(&self) -> (r: (Counters, Counters))
        ensures
            r.1 == after(r.0, Operation::ToCelsius),
    {
        self.record(Operation::ToCelsius)
    }

    /// Counts one Celsius-to-Fahrenheit conversion.
    pub fn record_to_fahrenheit(&self) -> (r: (Counters, Counters))
        ensures
            r.1 == after(r.0, Operation::ToFahrenheit),
    {
        self.record(Operation::ToFahrenheit)
    }

    /// The current counts, read under the lock. Other handlers may count
    /// before the caller looks at them, so nothing more is promised of them.
    pub fn snapshot(&self) -> (r: Counters) {
        let handle = self.counters.acquire_read();
        let c = *handle.borrow();
        handle.release_read();
        c
    }

    /// The final counts, once no handler holds the store any more.
    pub fn into_counters(self) -> (r: Counters) {
        self.counters.into_inner()
    }
}

impl Default for UsageStats {
    fn default() -> (r: UsageStats) {
        UsageStats::new()
    }
}

} // verus!
