//! The debouncer: the minimum spacing between a completed rebuild attempt
//! and the start of the next.
//!
//! Times are readings of a monotonic clock, in nanoseconds from an origin that
//! the caller picks once and keeps. A wall clock will not do: it can be set
//! back.

use vstd::prelude::*;

verus! {

/// The reference debounce interval: 250 milliseconds.
pub const DEBOUNCE_NANOS: u64 = 250_000_000;

/// Time that has passed at `now` since `last`; zero where the clock reads
/// earlier than `last`.
pub open spec fn elapsed_since(now: u64, last: u64) -> int {
    if now >= last {
        now - last
    } else {
        0
    }
}

/// Whether enough time has passed at `now`: at least `interval` since the
/// attempt that completed at `last_build`.
pub open spec fn interval_elapsed(now: u64, last_build: u64, interval: u64) -> bool {
    elapsed_since(now, last_build) >= interval
}

/// Decides whether a rebuild may start at `now`, given that the last attempt
/// completed at `last_build`.
pub fn should_rebuild(now: u64, last_build: u64, interval: u64) -> (go: bool)
    ensures
        go == interval_elapsed(now, last_build, interval),
{
    let elapsed: u64 = if now >= last_build {
        now - last_build
    } else {
        0
    };
    elapsed >= interval
}

/// The debouncer's state: the interval, fixed for good, and the
/// time at which the last rebuild attempt completed, if one did.
#[derive(Clone, Copy, Debug, PartialEq, Eq)]
pub struct Debouncer {
    /// The minimum spacing, in nanoseconds.
    pub interval: u64,
    /// When the last attempt completed; `None` until one has.
    pub last_attempt: Option<u64>,
}

impl Debouncer {
    /// Whether a rebuild may start at `now`. Before any attempt it may.
    pub open spec fn ready_at(self, now: u64) -> bool {
        match self.last_attempt {
            Some(last) => interval_elapsed(now, last, self.interval),
            None => true,
        }
    }

    /// The state after an attempt that completed at `now`.
    pub open spec fn after_attempt(self, now: u64) -> Debouncer {
        Debouncer { interval: self.interval, last_attempt: Some(now) }
    }

    /// A debouncer that has seen no attempt yet.
    pub fn new(interval: u64) -> (fresh: Debouncer)
        ensures
            fresh == (Debouncer { interval, last_attempt: None }),
            forall|now: u64| fresh.ready_at(now),
    {
        Debouncer { interval, last_attempt: None }
    }

    /// Decides whether a rebuild may start at `now`.
    pub fn ready(&self, now: u64) -> (go: bool)
        ensures
            go == self.ready_at(now),
    {
        match self.last_attempt {
            Some(last) => should_rebuild(now, last, self.interval),
            None => true,
        }
    }

    /// Records that an attempt completed at `now`, whether it succeeded or
    /// failed: either way no rebuild starts for one interval.
    pub fn record(&mut self, now: u64)
        ensures
            *final(self) == old(self).after_attempt(now),
    {
        self.last_attempt = Some(now);
    }
}

/// Once an attempt has completed at `done`, no rebuild may start at a reading
/// of the clock less than one interval later, and one may at every reading
/// from then on.
pub proof fn lemma_shut_for_one_interval(debouncer: Debouncer, done: u64, now: u64)
    requires
        done <= now,
    ensures
        debouncer.after_attempt(done).ready_at(now) <==> now - done >= debouncer.interval,
{
}

} // verus!
