//! The message a caller submits.

use crate::error::ServiceError;
use crate::text::{clone_opt, clone_pairs, pairs_view};
use vstd::prelude::*;

verus! {

/// A short text message from a chat platform.
#[derive(Debug, Clone)]
pub struct Message {
    /// Unique identifier of the message, as the 128 bits of a UUID.
    pub id: u128,
    /// Who sent the message.
    pub user_id: String,
    /// The platform it was sent from.
    pub platform: String,
    /// The text itself.
    pub content: String,
    /// Unix seconds at which it was submitted.
    pub timestamp: i64,
    /// Priority tag.
    pub priority: String,
    /// Free-form key/value pairs that accompany the message, in the order
    /// in which they were given. Nothing keeps a key from occurring twice; the
    /// pairs are handed on as they are and never looked into.
    pub metadata: Vec<(String, String)>,
    /// How many times processing has been attempted again.
    pub retry_count: u32,
    /// Thread the message belongs to, if any.
    pub thread_id: Option<String>,
}

/// What a [`Message`] holds, with every text as a sequence of characters.
pub struct MessageView {
    pub id: u128,
    pub user_id: Seq<char>,
    pub platform: Seq<char>,
    pub content: Seq<char>,
    pub timestamp: i64,
    pub priority: Seq<char>,
    pub metadata: Seq<(Seq<char>, Seq<char>)>,
    pub retry_count: u32,
    pub thread_id: Option<Seq<char>>,
}

/// The view of an optional string.
pub open spec fn opt_view(s: Option<String>) -> Option<Seq<char>> {
    match s {
        Some(t) => Some(t@),
        None => None,
    }
}

impl View for Message {
    type V = MessageView;

    open spec fn view(&self) -> MessageView {
        MessageView {
            id: self.id,
            user_id: self.user_id@,
            platform: self.platform@,
            content: self.content@,
            timestamp: self.timestamp,
            priority: self.priority@,
            metadata: pairs_view(self.metadata@),
            retry_count: self.retry_count,
            thread_id: opt_view(self.thread_id),
        }
    }
}

/// The largest number of characters that a message's text may have.
pub const MAX_CONTENT_CHARS: usize = 4000;

impl MessageView {
    /// Whether the message is fit for processing: it has a text of at most
    /// [`MAX_CONTENT_CHARS`] characters and names its sender.
    pub open spec fn valid(self) -> bool {
        &&& 0 < self.content.len() <= MAX_CONTENT_CHARS
        &&& self.user_id.len() > 0
    }

    /// What an unfit message is answered with.
    pub open spec fn complaint(self) -> Seq<char> {
        if self.content.len() == 0 {
            "Message content cannot be empty"@
        } else if self.user_id.len() == 0 {
            "User ID cannot be empty"@
        } else {
            "Message content exceeds maximum length of 4000 characters"@
        }
    }

    /// The same message after one more failed attempt.
    pub open spec fn retried(self) -> MessageView {
        MessageView { retry_count: (self.retry_count + 1) as u32, ..self }
    }
}

impl Message {
    /// Checks that the message is fit for processing. The text is measured in
    /// characters, not in bytes. An unfit message fails with `InvalidMessage`.
    pub fn validate(&self) -> (r: Result<(), ServiceError>)
        ensures
            r is Ok <==> self@.valid(),
            r matches Err(e) ==> e is InvalidMessage && e.detail() == self@.complaint(),
    {
        let length: usize = self.content.as_str().unicode_len();
        if length == 0 {
            return Err(
                ServiceError::InvalidMessage(String::from_str("Message content cannot be empty")),
            );
        }
        if self.user_id.as_str().unicode_len() == 0 {
            return Err(ServiceError::InvalidMessage(String::from_str("User ID cannot be empty")));
        }
        if length > MAX_CONTENT_CHARS {
            return Err(
                ServiceError::InvalidMessage(
                    String::from_str("Message content exceeds maximum length of 4000 characters"),
                ),
            );
        }
        Ok(())
    }

    /// An independent copy with the same contents.
    pub fn duplicate(&self) -> (m: Message)
        ensures
            m@ == self@,
    {
        Message {
            id: self.id,
            user_id: self.user_id.clone(),
            platform: self.platform.clone(),
            content: self.content.clone(),
            timestamp: self.timestamp,
            priority: self.priority.clone(),
            metadata: clone_pairs(&self.metadata),
            retry_count: self.retry_count,
            thread_id: clone_opt(&self.thread_id),
        }
    }
}

} // verus!
