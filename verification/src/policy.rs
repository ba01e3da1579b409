//! Fixed policy values of the bridge.
//!
//! The store key names are the wire contract with the queue/pub-sub store;
//! the durations, in whole time-units, govern outbound flood control, the
//! bounded wait of the queue pop, and the reconnection cooldown.

use vstd::prelude::*;

verus! {

/// Queue popped by the outbound loop.
pub const OUTBOUND_QUEUE_KEY: &'static str = "irc-write";

/// List holding the bounded history of inbound records.
pub const HISTORY_LIST_KEY: &'static str = "irc-read";

/// Counter incremented once per inbound event.
pub const SEQUENCE_COUNTER_KEY: &'static str = "irc-read-cnt";

/// Channel on which each new sequence number is announced.
pub const NOTIFY_CHANNEL_KEY: &'static str = "irc-read";

/// Minimum pause after every dispatched or discarded outbound pop.
pub const FLOOD_INTERVAL_UNITS: u64 = 1;

/// Bounded wait of one outbound queue pop.
pub const POP_TIMEOUT_UNITS: u64 = 10;

/// Pause between stream termination and the reconnect attempt.
pub const RECONNECT_COOLDOWN_UNITS: u64 = 60;

} // verus!
