//! The answer to a submitted message.

use crate::error::{ErrorKind, ServiceError};
use crate::handlers::ApiResponse;
use vstd::prelude::*;

verus! {

/// The completion for a message.
#[derive(Debug)]
pub struct MessageResponse {
    /// The identifier of the message that was answered.
    pub message_id: u128,
    pub response: String,
}

/// The answer to a submitted message at time `now`, given how its processing
/// ended: the completion in an envelope, or a `ProcessingError` that carries
/// the full text of the error that ended it.
pub fn handle_message(message_id: u128, outcome: Result<String, ServiceError>, now: i64) -> (r:
    Result<ApiResponse<MessageResponse>, ServiceError>)
    ensures
        match (outcome, r) {
            (Ok(text), Ok(reply)) => reply.success && reply.timestamp == now && reply.data
                == (MessageResponse { message_id, response: text }),
            (Err(e), Err(wrapped)) => wrapped@.kind == ErrorKind::ProcessingError
                && wrapped@.detail == e@.text(),
            _ => false,
        },
{
    match outcome {
        Ok(response) => Ok(ApiResponse::at(MessageResponse { message_id, response }, now)),
        Err(e) => Err(ServiceError::ProcessingError(e.describe())),
    }
}

} // verus!
