//! Boot-relative time base: a single scalar reference instant, written once by
//! the configuration writer before instrumentation is armed, read concurrently
//! by every CPU thereafter.

use vstd::prelude::*;

verus! {

/// The boot reference instant. Before the one-time write it holds the load
/// default, zero, which callers should treat as an "uninitialized" sentinel
/// rather than a valid timestamp.
pub struct TimeBase {
    boot_instant: u64,
}

impl TimeBase {
    /// The stored reference instant.
    pub closed spec fn instant(&self) -> u64 {
        self.boot_instant
    }

    /// Whether the one-time write has put a non-sentinel value in place.
    pub open spec fn initialized(&self) -> bool {
        self.instant() != 0
    }

    /// A fresh time base holds the deterministic load default, zero.
    pub fn new() -> (time: TimeBase)
        ensures
            time.instant() == 0,
            !time.initialized(),
    {
        TimeBase { boot_instant: 0 }
    }

    /// The one-time write performed by the configuration writer; every later
    /// read observes exactly this value.
    pub fn set_boot_time(&mut self, instant: u64)
        ensures
            final(self).instant() == instant,
    {
        self.boot_instant = instant;
    }

    /// The read on the hot path: returns the reference instant exactly, with
    /// no side effect.
    pub fn boot_time(&self) -> (instant: u64)
        ensures
            instant == self.instant(),
    {
        self.boot_instant
    }

    /// Surfaces the zero sentinel distinctly, for callers whose correctness
    /// depends on the write having happened.
    pub fn is_initialized(&self) -> (initialized: bool)
        ensures
            initialized == self.initialized(),
    {
        self.boot_instant != 0
    }
}

} // verus!
