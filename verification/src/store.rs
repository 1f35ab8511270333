//! The configuration store: the single shared holder of the current
//! record, read by every call and replaced whole on each reload.
//!
//! The store itself is a plain value; the process wraps it in its own
//! short-critical-section lock and calls `snapshot` and `replace` under
//! it. At every instant the store holds exactly one fully-populated
//! record: there is no empty or partially-updated state to observe.

use vstd::prelude::*;

use crate::config::ProtalConfig;

verus! {

pub struct ConfigStore {
    current: ProtalConfig,
}

impl ConfigStore {
    /// The record the store holds right now.
    pub closed spec fn record(self) -> ProtalConfig {
        self.current
    }

    /// A store holding `initial`.
    pub fn new(initial: ProtalConfig) -> (s: Self)
        ensures
            s.record() == initial,
    {
        ConfigStore { current: initial }
    }

    /// A copy of the current record. The caller keeps working with the
    /// copy; a later `replace` does not touch it.
    pub fn snapshot(&self) -> (r: ProtalConfig)
        ensures
            r == self.record(),
    {
        self.current.duplicate()
    }

    /// Swap in a freshly-built record. The old record is gone whole; the
    /// new one is seen by every later `snapshot`.
    pub fn replace(&mut self, next: ProtalConfig)
        ensures
            final (self).record() == next,
    {
        self.current = next;
    }
}

/// Reading the store twice with no `replace` in between yields equal
/// records: `snapshot` promises a copy of the held record and nothing
/// else changes it.
pub proof fn lemma_snapshot_idempotent(s: ConfigStore, first: ProtalConfig, second: ProtalConfig)
    requires
        first == s.record(),
        second == s.record(),
    ensures
        first == second,
{
}

} // verus!
