//! The bridge configuration.
//!
//! Created once at startup and shared read-only by both loops: the address
//! of the queue/pub-sub store and the retention limit of the bounded
//! history list.

use vstd::prelude::*;

verus! {

/// Immutable bridge configuration.
pub struct Config {
    /// Address of the queue/pub-sub store.
    pub store_address: String,
    /// Retention limit of the bounded history list; at least 1.
    pub history_limit: usize,
}

impl Config {
    /// The history limit is at least 1 and small enough to be negated as a
    /// store trim index.
    pub open spec fn wf(self) -> bool {
        1 <= self.history_limit <= i64::MAX
    }

    /// Builds the configuration.
    pub fn new(store_address: String, history_limit: usize) -> (r: Config)
        requires
            1 <= history_limit <= i64::MAX,
        ensures
            r.wf(),
            r.store_address == store_address,
            r.history_limit == history_limit,
    {
        Config { store_address, history_limit }
    }
}

} // verus!
