//! The defaults that the service starts with.

use vstd::prelude::*;

verus! {

/// Default server port.
pub const DEFAULT_PORT: u16 = 3030;

/// Default capacity of the message queue.
pub const DEFAULT_QUEUE_SIZE: usize = 10000;

/// Default length of an admission window in seconds.
pub const DEFAULT_RATE_LIMIT_WINDOW: i64 = 60;

/// Default number of messages that one user may submit in one window.
pub const DEFAULT_RATE_LIMIT_MAX: u32 = 100;

/// Calls to the completion service per minute, kept slightly under the
/// thousand that the service allows.
pub const COMPLETION_RATE_LIMIT_RPM: u32 = 950;

/// Seconds for which a conversation stays open (24 hours).
pub const CONVERSATION_TIMEOUT: i64 = 86400;

/// Seconds between two sweeps for expired conversations.
pub const SWEEP_INTERVAL: i64 = 300;

/// Milliseconds for which the processing loop rests after each cycle.
pub const CYCLE_SLEEP_MILLIS: u64 = 100;

} // verus!
