//! Tuning knobs and fixed names shared by the supervisor and its workers.

use vstd::prelude::*;

verus! {

/// Name of the agent key inside the agent's identity document.
pub const AGENT_KEY_NAME: &'static str = "00";

/// Name under which the agent is delegated control of every twin it creates.
pub const AGENT_TWIN_NAME: &'static str = "#twin-0";

/// Language tag of every label the engine writes.
pub const LANGUAGE: &'static str = "en";

/// Identifier of the feed on which a model twin reports each tick.
pub const HEARTBEAT_FEED_ID: &'static str = "heartbeat";

/// A new worker is refused while more than this many creations are in flight.
pub const CONCURRENT_NEW_TWINS_LIMIT: usize = 4;

/// Upper bound on the feed samples that may be in flight across all workers.
pub const CONCURRENT_SHARES_LIMIT: usize = 128;

/// Upper bound on the character count of a twin label.
pub const MAX_LABEL_LENGTH: usize = 128;

/// Milliseconds after which a deferred message is looked at again.
pub const RESCHEDULE_DELAY_MILLIS: u64 = 500;

/// Share of each fetch interval during which the data of a tick may still
/// be admitted, in milliseconds per second of interval (three quarters).
pub const TICK_CAP_MILLIS_PER_SEC: u64 = 750;

/// Length of the cleanup interval, in milliseconds per second of fetch
/// interval (three and a half fetch intervals).
pub const CLEANUP_MILLIS_PER_SEC: u64 = 3500;

/// Number of milliseconds in a second.
pub const MILLIS_PER_SEC: u64 = 1000;

/// Capacity of the supervisor's mailbox: one tick may enqueue a message per
/// source entity, and deferred messages come back on top of that.
pub const MAILBOX_CAPACITY: usize = 32768;

} // verus!
