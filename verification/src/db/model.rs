//! What the store holds and what its operations mean, as mathematics.

use crate::constants::CONVERSATION_TIMEOUT;
use crate::db::models::{ConversationView, StoredMessageView};
use vstd::prelude::*;

verus! {

/// The newest of `conversations` that is open for `user` at time `now`.
pub open spec fn find_current(conversations: Seq<ConversationView>, user: Seq<char>, now: i64)
    -> Option<ConversationView>
    decreases conversations.len(),
{
    if conversations.len() == 0 {
        None
    } else if conversations.last().current(user, now) {
        Some(conversations.last())
    } else {
        find_current(conversations.drop_last(), user, now)
    }
}

/// `conversations` after those that are due at time `now` were closed.
pub open spec fn swept(conversations: Seq<ConversationView>, now: i64) -> Seq<ConversationView> {
    Seq::new(
        conversations.len(),
        |i: int|
            if conversations[i].expired(now) {
                conversations[i].closed_at(now)
            } else {
                conversations[i]
            },
    )
}

/// How many of `conversations` are due for closing at time `now`.
pub open spec fn count_expired(conversations: Seq<ConversationView>, now: i64) -> nat
    decreases conversations.len(),
{
    if conversations.len() == 0 {
        0
    } else if conversations.last().expired(now) {
        count_expired(conversations.drop_last(), now) + 1
    } else {
        count_expired(conversations.drop_last(), now)
    }
}

/// Whether `conversations` stand in the order in which they were written:
/// none was written before one that stands earlier.
pub open spec fn conversations_in_order(conversations: Seq<ConversationView>) -> bool {
    forall|i: int, j: int|
        0 <= i <= j < conversations.len() ==> (#[trigger] conversations[i]).created_at <= (
        #[trigger] conversations[j]).created_at
}

/// Whether `messages` stand in the order in which they were written.
pub open spec fn messages_in_order(messages: Seq<StoredMessageView>) -> bool {
    forall|i: int, j: int|
        0 <= i <= j < messages.len() ==> (#[trigger] messages[i]).created_at <= (
        #[trigger] messages[j]).created_at
}

/// Where a conversation that is written at time `now` takes its place among
/// `conversations`: behind those that were written at `now` or before.
pub open spec fn conversation_slot(conversations: Seq<ConversationView>, now: i64) -> int
    decreases conversations.len(),
{
    if conversations.len() == 0 {
        0
    } else if conversations.last().created_at > now {
        conversation_slot(conversations.drop_last(), now)
    } else {
        conversations.len() as int
    }
}

/// Where a message that is written at time `now` takes its place among
/// `messages`: behind those that were written at `now` or before.
pub open spec fn message_slot(messages: Seq<StoredMessageView>, now: i64) -> int
    decreases messages.len(),
{
    if messages.len() == 0 {
        0
    } else if messages.last().created_at > now {
        message_slot(messages.drop_last(), now)
    } else {
        messages.len() as int
    }
}

/// The place of the conversation `id` among `conversations`, if it is there.
pub open spec fn position_of(conversations: Seq<ConversationView>, id: u128) -> Option<int>
    decreases conversations.len(),
{
    if conversations.len() == 0 {
        None
    } else if conversations.last().id == id {
        Some(conversations.len() - 1)
    } else {
        position_of(conversations.drop_last(), id)
    }
}

/// Those of `s` that `keep` holds of, the last one first.
pub open spec fn newest_first<T>(s: Seq<T>, keep: spec_fn(T) -> bool) -> Seq<T>
    decreases s.len(),
{
    if s.len() == 0 {
        Seq::empty()
    } else if keep(s.last()) {
        seq![s.last()] + newest_first(s.drop_last(), keep)
    } else {
        newest_first(s.drop_last(), keep)
    }
}

/// Holds of the conversations of `user`; of the closed ones only where
/// `include_inactive` says so.
pub open spec fn owned_by(user: Seq<char>, include_inactive: bool) -> spec_fn(
    ConversationView,
) -> bool {
    |c: ConversationView| c.user_id == user && (include_inactive || c.is_active)
}

/// Holds of the messages that `user` sent.
pub open spec fn sent_by(user: Seq<char>) -> spec_fn(StoredMessageView) -> bool {
    |m: StoredMessageView| m.user_id == user
}

/// Holds of the messages of the conversation `id`.
pub open spec fn part_of(id: u128) -> spec_fn(StoredMessageView) -> bool {
    |m: StoredMessageView| m.conversation_id == id
}

/// Holds of the messages in the conversations of `user` among
/// `conversations`, whoever sent them.
pub open spec fn addressed_to(conversations: Seq<ConversationView>, user: Seq<char>) -> spec_fn(
    StoredMessageView,
) -> bool {
    |m: StoredMessageView|
        match position_of(conversations, m.conversation_id) {
            Some(i) => conversations[i].user_id == user,
            None => false,
        }
}

/// The part of `s` that a query with `OFFSET offset LIMIT limit` hands out:
/// at most `limit` items after the first `offset`.
pub open spec fn page<T>(s: Seq<T>, offset: int, limit: int) -> Seq<T>
    recommends
        0 <= offset,
        0 <= limit,
{
    let start = if offset < s.len() {
        offset
    } else {
        s.len() as int
    };
    let end = if offset + limit < s.len() {
        offset + limit
    } else {
        s.len() as int
    };
    s.subrange(start, end)
}

/// The message `m` once it is marked as failed where its identifier is `id`.
pub open spec fn marked(m: StoredMessageView, id: u128) -> StoredMessageView {
    if m.id == id {
        StoredMessageView { failed: true, ..m }
    } else {
        m
    }
}

/// The message `m` with the response figures recorded where its identifier
/// is `id`.
pub open spec fn measured(m: StoredMessageView, id: u128, response_length: i32, processing_time: i64)
    -> StoredMessageView {
    if m.id == id {
        StoredMessageView {
            response_length: Some(response_length),
            processing_time: Some(processing_time),
            ..m
        }
    } else {
        m
    }
}

/// A message as it is when it is written at time `now`.
pub open spec fn written(
    id: u128,
    conversation_id: u128,
    user: Seq<char>,
    content: Seq<char>,
    thread_id: Option<Seq<char>>,
    platform: Seq<char>,
    metadata: Seq<(Seq<char>, Seq<char>)>,
    now: i64,
) -> StoredMessageView {
    StoredMessageView {
        id,
        conversation_id,
        user_id: user,
        content,
        thread_id,
        platform,
        metadata,
        created_at: now,
        failed: false,
        response_length: None,
        processing_time: None,
    }
}

/// What a [`ConversationStore`] holds: the conversations in the order in
/// which they were created, and the messages in the order in which they were
/// written.
pub struct StoreModel {
    pub conversations: Seq<ConversationView>,
    pub messages: Seq<StoredMessageView>,
}

impl StoreModel {
    /// The store without any record.
    pub open spec fn empty() -> StoreModel {
        StoreModel { conversations: Seq::empty(), messages: Seq::empty() }
    }

    /// Whether a conversation has the identifier `id`.
    pub open spec fn has_conversation(self, id: u128) -> bool {
        exists|i: int| 0 <= i < self.conversations.len() && #[trigger] self.conversations[i].id == id
    }

    /// Whether a message has the identifier `id`.
    pub open spec fn has_message(self, id: u128) -> bool {
        exists|i: int| 0 <= i < self.messages.len() && #[trigger] self.messages[i].id == id
    }

    /// What holds of every store: identifiers are unique, every message
    /// belongs to a conversation that exists, two active conversations of
    /// one user began at least [`CONVERSATION_TIMEOUT`] seconds apart, records
    /// stand in the order of the times at which they were written, and a
    /// conversation began when it was written.
    pub open spec fn consistent(self) -> bool {
        &&& conversations_in_order(self.conversations)
        &&& messages_in_order(self.messages)
        &&& forall|i: int|
            0 <= i < self.conversations.len() ==> (#[trigger] self.conversations[i]).created_at
                == self.conversations[i].started_at
        &&& forall|i: int, j: int|
            0 <= i < j < self.conversations.len() ==> #[trigger] self.conversations[i].id
                != #[trigger] self.conversations[j].id
        &&& forall|i: int, j: int|
            0 <= i < j < self.messages.len() ==> #[trigger] self.messages[i].id
                != #[trigger] self.messages[j].id
        &&& forall|k: int|
            0 <= k < self.messages.len() ==> self.has_conversation(
                #[trigger] self.messages[k].conversation_id,
            )
        &&& forall|i: int, j: int|
            #![trigger self.conversations[i], self.conversations[j]]
            0 <= i < self.conversations.len() && 0 <= j < self.conversations.len() && i != j
                && self.conversations[i].is_active && self.conversations[j].is_active
                && self.conversations[i].user_id == self.conversations[j].user_id
                ==> self.conversations[i].started_at - self.conversations[j].started_at
                >= CONVERSATION_TIMEOUT || self.conversations[j].started_at
                - self.conversations[i].started_at >= CONVERSATION_TIMEOUT
    }

    /// The conversation of `user` that is open at time `now`, if there is one.
    pub open spec fn active_conversation(self, user: Seq<char>, now: i64) -> Option<
        ConversationView,
    > {
        find_current(self.conversations, user, now)
    }

    /// Whether a conversation with the identifier `id` can be created for
    /// `user` at time `now`: the identifier is free and the user has no open
    /// conversation.
    pub open spec fn can_create(self, id: u128, user: Seq<char>, now: i64) -> bool {
        !self.has_conversation(id) && self.active_conversation(user, now) is None
    }

    /// The store after `c` was created: `c` stands behind the conversations
    /// that were written at the same time or before.
    pub open spec fn create(self, c: ConversationView) -> StoreModel {
        StoreModel {
            conversations: self.conversations.insert(
                conversation_slot(self.conversations, c.created_at),
                c,
            ),
            ..self
        }
    }

    /// The conversation that a message of `user` at time `now` belongs to,
    /// and the store after it was found or created: the user's open
    /// conversation where there is one, otherwise a new conversation with the
    /// identifier `id`.
    pub open spec fn resolve(
        self,
        id: u128,
        user: Seq<char>,
        platform: Seq<char>,
        metadata: Seq<(Seq<char>, Seq<char>)>,
        now: i64,
    ) -> (StoreModel, u128) {
        match self.active_conversation(user, now) {
            Some(c) => (self, c.id),
            None => (self.create(opened(id, user, platform, metadata, now)), id),
        }
    }

    /// The conversations of `user`, newest first; the closed ones only where
    /// `include_inactive` says so.
    pub open spec fn conversations_of(self, user: Seq<char>, include_inactive: bool) -> Seq<
        ConversationView,
    > {
        newest_first(self.conversations, owned_by(user, include_inactive))
    }

    /// The messages that `user` sent, newest first.
    pub open spec fn messages_of(self, user: Seq<char>) -> Seq<StoredMessageView> {
        newest_first(self.messages, sent_by(user))
    }

    /// The messages of the conversation `id`, newest first.
    pub open spec fn messages_in(self, id: u128) -> Seq<StoredMessageView> {
        newest_first(self.messages, part_of(id))
    }

    /// Both sides of the exchanges of `user`: the messages in the user's
    /// conversations, newest first.
    pub open spec fn history_of(self, user: Seq<char>) -> Seq<StoredMessageView> {
        newest_first(self.messages, addressed_to(self.conversations, user))
    }

    /// Whether a message can be written under the identifier `id` into the
    /// conversation `conversation_id`: the identifier is free and the
    /// conversation exists.
    pub open spec fn can_save(self, id: u128, conversation_id: u128) -> bool {
        !self.has_message(id) && self.has_conversation(conversation_id)
    }

    /// The store after the message `m` was written: `m` stands behind the
    /// messages that were written at the same time or before.
    pub open spec fn save(self, m: StoredMessageView) -> StoreModel {
        StoreModel {
            messages: self.messages.insert(message_slot(self.messages, m.created_at), m),
            ..self
        }
    }

    /// The store after the message `id` was marked as failed.
    pub open spec fn mark_failed(self, id: u128) -> StoreModel {
        StoreModel {
            messages: Seq::new(self.messages.len(), |i: int| marked(self.messages[i], id)),
            ..self
        }
    }

    /// The store after the response figures of the message `id` were
    /// recorded.
    pub open spec fn record_metrics(self, id: u128, response_length: i32, processing_time: i64)
        -> StoreModel {
        StoreModel {
            messages: Seq::new(
                self.messages.len(),
                |i: int| measured(self.messages[i], id, response_length, processing_time),
            ),
            ..self
        }
    }

    /// The store after the sweep at time `now`.
    pub open spec fn sweep(self, now: i64) -> StoreModel {
        StoreModel { conversations: swept(self.conversations, now), ..self }
    }

    /// The store after the conversation `id` was closed at time `now`.
    pub open spec fn close(self, id: u128, now: i64) -> StoreModel {
        match position_of(self.conversations, id) {
            Some(i) => StoreModel {
                conversations: self.conversations.update(i, self.conversations[i].closed_at(now)),
                ..self
            },
            None => self,
        }
    }
}

/// A conversation as it is when it is created at time `now`.
pub open spec fn opened(
    id: u128,
    user: Seq<char>,
    platform: Seq<char>,
    metadata: Seq<(Seq<char>, Seq<char>)>,
    now: i64,
) -> ConversationView {
    ConversationView {
        id,
        user_id: user,
        platform,
        started_at: now,
        ended_at: None,
        is_active: true,
        metadata,
        created_at: now,
    }
}

} // verus!
