//! The shapes of the answers that go back to callers.

pub mod conversation;
pub mod health;
pub mod messages;

pub use conversation::{ConversationQuery, MessagesQuery};
pub use health::HealthResponse;
pub use messages::MessageResponse;

use crate::clock::unix_now;
use vstd::prelude::*;

verus! {

/// The envelope of every successful answer.
#[derive(Debug)]
pub struct ApiResponse<T> {
    pub success: bool,
    pub data: T,
    /// Unix seconds at which the answer was made.
    pub timestamp: i64,
}

impl<T> ApiResponse<T> {
    /// A successful answer that carries `data`, stamped with the time that
    /// the wall clock shows.
    pub fn new(data: T) -> (r: Self)
        ensures
            r.success,
            r.data == data,
    {
        ApiResponse::at(data, unix_now())
    }

    /// A successful answer that carries `data`, stamped with `timestamp`.
    pub fn at(data: T, timestamp: i64) -> (r: Self)
        ensures
            r.success,
            r.data == data,
            r.timestamp == timestamp,
    {
        ApiResponse { success: true, data, timestamp }
    }
}

} // verus!
