//! The values that travel through the pipeline.

pub mod conversation;
pub mod message;

pub use conversation::{AgentAction, ConversationState};
pub use message::{Message, MessageView};

use vstd::prelude::*;

verus! {

/// How many times a failed message is put back on the queue before it is given up.
pub const MAX_RETRY_ATTEMPTS: u32 = 3;

/// Seconds without activity after which a tracked session counts as expired.
pub const DEFAULT_TIMEOUT: i64 = 300;

} // verus!
