//! Conversations and the messages stored within them.

use crate::constants::CONVERSATION_TIMEOUT;
use crate::models::message::opt_view;
use crate::table::same_text;
use crate::text::{clone_opt, clone_pairs, pairs_view};
use vstd::prelude::*;

verus! {

/// A session that groups a user's messages within a bounded time window.
#[derive(Debug, Clone)]
pub struct Conversation {
    /// Unique identifier, as the 128 bits of a UUID.
    pub id: u128,
    pub user_id: String,
    pub platform: String,
    /// Unix seconds at which the conversation began.
    pub started_at: i64,
    /// Unix seconds at which it was closed, once it is.
    pub ended_at: Option<i64>,
    pub is_active: bool,
    pub metadata: Vec<(String, String)>,
    /// Unix seconds at which the record was written.
    pub created_at: i64,
}

/// What a [`Conversation`] holds, with every text as a sequence of characters.
pub struct ConversationView {
    pub id: u128,
    pub user_id: Seq<char>,
    pub platform: Seq<char>,
    pub started_at: i64,
    pub ended_at: Option<i64>,
    pub is_active: bool,
    pub metadata: Seq<(Seq<char>, Seq<char>)>,
    pub created_at: i64,
}

impl View for Conversation {
    type V = ConversationView;

    open spec fn view(&self) -> ConversationView {
        ConversationView {
            id: self.id,
            user_id: self.user_id@,
            platform: self.platform@,
            started_at: self.started_at,
            ended_at: self.ended_at,
            is_active: self.is_active,
            metadata: pairs_view(self.metadata@),
            created_at: self.created_at,
        }
    }
}

impl ConversationView {
    /// Whether this is a conversation of `user` that is open at time `now`:
    /// it is active and began less than [`CONVERSATION_TIMEOUT`] seconds ago.
    pub open spec fn current(self, user: Seq<char>, now: i64) -> bool {
        self.user_id == user && self.is_active && self.started_at > now - CONVERSATION_TIMEOUT
    }

    /// Whether the conversation is due for closing at time `now`: it is
    /// active and was written more than [`CONVERSATION_TIMEOUT`] seconds ago.
    pub open spec fn expired(self, now: i64) -> bool {
        self.is_active && self.created_at < now - CONVERSATION_TIMEOUT
    }

    /// The conversation once it is closed at time `now`.
    pub open spec fn closed_at(self, now: i64) -> ConversationView {
        ConversationView { is_active: false, ended_at: Some(now), ..self }
    }
}

impl Conversation {
    /// Whether this is a conversation of `user_id` that is open at time `now`.
    pub fn is_current(&self, user_id: &str, now: i64) -> (b: bool)
        ensures
            b == self@.current(user_id@, now),
    {
        self.is_active && (self.started_at as i128) > (now as i128) - (CONVERSATION_TIMEOUT as i128)
            && same_text(self.user_id.as_str(), user_id)
    }

    /// Whether the conversation is due for closing at time `now`.
    pub fn is_expired(&self, now: i64) -> (b: bool)
        ensures
            b == self@.expired(now),
    {
        self.is_active && (self.created_at as i128) < (now as i128) - (CONVERSATION_TIMEOUT as i128)
    }

    /// Closes the conversation at time `now`.
    pub fn close(&mut self, now: i64)
        ensures
            final(self)@ == old(self)@.closed_at(now),
    {
        self.is_active = false;
        self.ended_at = Some(now);
    }

    /// An independent copy with the same contents.
    pub fn duplicate(&self) -> (c: Conversation)
        ensures
            c@ == self@,
    {
        Conversation {
            id: self.id,
            user_id: self.user_id.clone(),
            platform: self.platform.clone(),
            started_at: self.started_at,
            ended_at: self.ended_at,
            is_active: self.is_active,
            metadata: clone_pairs(&self.metadata),
            created_at: self.created_at,
        }
    }
}

/// One side of an exchange as it was written to the store.
#[derive(Debug, Clone)]
pub struct StoredMessage {
    /// Unique identifier, as the 128 bits of a UUID.
    pub id: u128,
    /// The conversation that the message belongs to.
    pub conversation_id: u128,
    /// The human sender, or the identity of the completion service.
    pub user_id: String,
    pub content: String,
    pub thread_id: Option<String>,
    /// The platform of the exchange that the message belongs to.
    pub platform: String,
    pub metadata: Vec<(String, String)>,
    /// Unix seconds at which the message was written.
    pub created_at: i64,
    /// Whether processing of the message was given up.
    pub failed: bool,
    /// Length of the response to the message, once it is recorded.
    pub response_length: Option<i32>,
    /// Time that processing the message took, once it is recorded.
    pub processing_time: Option<i64>,
}

/// What a [`StoredMessage`] holds, with every text as a sequence of characters.
pub struct StoredMessageView {
    pub id: u128,
    pub conversation_id: u128,
    pub user_id: Seq<char>,
    pub content: Seq<char>,
    pub thread_id: Option<Seq<char>>,
    pub platform: Seq<char>,
    pub metadata: Seq<(Seq<char>, Seq<char>)>,
    pub created_at: i64,
    pub failed: bool,
    pub response_length: Option<i32>,
    pub processing_time: Option<i64>,
}

impl View for StoredMessage {
    type V = StoredMessageView;

    open spec fn view(&self) -> StoredMessageView {
        StoredMessageView {
            id: self.id,
            conversation_id: self.conversation_id,
            user_id: self.user_id@,
            content: self.content@,
            thread_id: opt_view(self.thread_id),
            platform: self.platform@,
            metadata: pairs_view(self.metadata@),
            created_at: self.created_at,
            failed: self.failed,
            response_length: self.response_length,
            processing_time: self.processing_time,
        }
    }
}

impl StoredMessage {
    /// An independent copy with the same contents.
    pub fn duplicate(&self) -> (m: StoredMessage)
        ensures
            m@ == self@,
    {
        StoredMessage {
            id: self.id,
            conversation_id: self.conversation_id,
            user_id: self.user_id.clone(),
            content: self.content.clone(),
            thread_id: clone_opt(&self.thread_id),
            platform: self.platform.clone(),
            metadata: clone_pairs(&self.metadata),
            created_at: self.created_at,
            failed: self.failed,
            response_length: self.response_length,
            processing_time: self.processing_time,
        }
    }
}

/// The view of a conversation that may be missing.
pub open spec fn found_view(c: Option<Conversation>) -> Option<ConversationView> {
    match c {
        Some(c) => Some(c@),
        None => None,
    }
}

/// The views of a list of conversations, in the same order.
pub open spec fn conversations_view(s: Seq<Conversation>) -> Seq<ConversationView> {
    Seq::new(s.len(), |i: int| s[i]@)
}

/// The views of a list of stored messages, in the same order.
pub open spec fn messages_view(s: Seq<StoredMessage>) -> Seq<StoredMessageView> {
    Seq::new(s.len(), |i: int| s[i]@)
}

} // verus!
