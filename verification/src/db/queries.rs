//! A store of conversations and messages that lives in memory.
//!
//! The store keeps its records in the order of the times at which they were
//! written; of two that were written at the same time, the one that came
//! later stands behind. "Newest first" means: in the reverse of that order.

use crate::clock::unix_now;
use crate::db::laws::{
    lemma_close_consistent, lemma_conversation_slot, lemma_create_consistent,
    lemma_created_is_found, lemma_find_current, lemma_found_is_newest, lemma_message_slot,
    lemma_position_of, lemma_save_consistent, lemma_sweep_consistent, lemma_update_consistent,
};
use crate::db::model::{
    addressed_to, conversation_slot, count_expired, find_current, marked, measured, message_slot,
    newest_first, opened, owned_by, page, part_of, position_of, sent_by, swept, written,
    StoreModel,
};
use crate::db::models::{
    conversations_view, found_view, messages_view, Conversation, ConversationView, StoredMessage,
    StoredMessageView,
};
use crate::error::{ErrorKind, ServiceError};
use crate::ids::fresh_id;
use crate::table::same_text;
use crate::text::pairs_view;
use vstd::prelude::*;

verus! {

/// Keeps conversations and messages in memory.
pub struct ConversationStore {
    conversations: Vec<Conversation>,
    messages: Vec<StoredMessage>,
}

impl View for ConversationStore {
    type V = StoreModel;

    closed spec fn view(&self) -> StoreModel {
        StoreModel {
            conversations: conversations_view(self.conversations@),
            messages: messages_view(self.messages@),
        }
    }
}

impl ConversationStore {
    #[verifier::type_invariant]
    spec fn well_formed(&self) -> bool {
        self@.consistent()
    }

    /// Does nothing when run; to the verifier it shows that the store is
    /// consistent, as every store is.
    pub fn consistency(&self)
        ensures
            self@.consistent(),
    {
        proof {
            use_type_invariant(self);
        }
    }

    /// A store without any record.
    pub fn new() -> (s: Self)
        ensures
            s@ == StoreModel::empty(),
    {
        let s = ConversationStore { conversations: Vec::new(), messages: Vec::new() };
        assert(s@.conversations =~= Seq::<ConversationView>::empty());
        assert(s@.messages =~= Seq::<StoredMessageView>::empty());
        s
    }

    fn current_index(&self, user_id: &str, now: i64) -> (r: Option<usize>)
        ensures
            match r {
                Some(i) => i < self.conversations.len() && self@.active_conversation(user_id@, now)
                    == Some(self.conversations[i as int]@),
                None => self@.active_conversation(user_id@, now) is None,
            },
    {
        let ghost cv = self@.conversations;
        let mut i: usize = self.conversations.len();
        assert(cv.take(i as int) =~= cv);
        while i > 0
            invariant
                i <= self.conversations.len(),
                cv == conversations_view(self.conversations@),
                find_current(cv.take(i as int), user_id@, now) == find_current(cv, user_id@, now),
            decreases i,
        {
            proof {
                let t = cv.take(i as int);
                assert(t.last() == cv[i - 1]);
                assert(t.drop_last() =~= cv.take(i - 1));
            }
            if self.conversations[i - 1].is_current(user_id, now) {
                return Some(i - 1);
            }
            i -= 1;
        }
        None
    }

    fn index_of_conversation(&self, id: u128) -> (r: Option<usize>)
        ensures
            match r {
                Some(i) => position_of(self@.conversations, id) == Some(i as int) && i
                    < self.conversations.len(),
                None => position_of(self@.conversations, id) is None,
            },
            r is Some <==> self@.has_conversation(id),
    {
        let ghost cv = self@.conversations;
        proof {
            lemma_position_of(cv, id);
            if self@.has_conversation(id) {
                let k = choose|k: int| 0 <= k < cv.len() && #[trigger] cv[k].id == id;
                assert(position_of(cv, id) is Some);
            }
            if position_of(cv, id) is Some {
                assert(cv[position_of(cv, id)->0].id == id);
            }
        }
        let mut i: usize = self.conversations.len();
        assert(cv.take(i as int) =~= cv);
        while i > 0
            invariant
                i <= self.conversations.len(),
                cv == conversations_view(self.conversations@),
                position_of(cv.take(i as int), id) == position_of(cv, id),
            decreases i,
        {
            proof {
                let t = cv.take(i as int);
                assert(t.last() == cv[i - 1]);
                assert(t.drop_last() =~= cv.take(i - 1));
            }
            if self.conversations[i - 1].id == id {
                return Some(i - 1);
            }
            i -= 1;
        }
        None
    }

    fn conversation_place(&self, now: i64) -> (p: usize)
        ensures
            p == conversation_slot(self@.conversations, now),
            p <= self.conversations.len(),
    {
        let ghost cv = self@.conversations;
        let mut p: usize = self.conversations.len();
        assert(cv.take(p as int) =~= cv);
        while p > 0 && self.conversations[p - 1].created_at > now
            invariant
                p <= self.conversations.len(),
                cv == conversations_view(self.conversations@),
                conversation_slot(cv.take(p as int), now) == conversation_slot(cv, now),
            decreases p,
        {
            proof {
                let t = cv.take(p as int);
                assert(t.last() == cv[p - 1]);
                assert(t.drop_last() =~= cv.take(p - 1));
            }
            p -= 1;
        }
        proof {
            let t = cv.take(p as int);
            if p > 0 {
                assert(t.last() == cv[p - 1]);
            }
        }
        p
    }

    fn message_place(&self, now: i64) -> (p: usize)
        ensures
            p == message_slot(self@.messages, now),
            p <= self.messages.len(),
    {
        let ghost mv = self@.messages;
        let mut p: usize = self.messages.len();
        assert(mv.take(p as int) =~= mv);
        while p > 0 && self.messages[p - 1].created_at > now
            invariant
                p <= self.messages.len(),
                mv == messages_view(self.messages@),
                message_slot(mv.take(p as int), now) == message_slot(mv, now),
            decreases p,
        {
            proof {
                let t = mv.take(p as int);
                assert(t.last() == mv[p - 1]);
                assert(t.drop_last() =~= mv.take(p - 1));
            }
            p -= 1;
        }
        proof {
            let t = mv.take(p as int);
            if p > 0 {
                assert(t.last() == mv[p - 1]);
            }
        }
        p
    }

    /// The conversation of `user_id` that is open at time `now`: active and
    /// begun less than a day ago. Where several are, the one that was
    /// written last.
    pub fn find_active_conversation(&self, user_id: &str, now: i64) -> (r: Option<Conversation>)
        ensures
            found_view(r) == self@.active_conversation(user_id@, now),
            r matches Some(c) ==> c@.current(user_id@, now) && forall|i: int|
                0 <= i < self@.conversations.len() && (#[trigger] self@.conversations[i]).current(
                    user_id@,
                    now,
                ) ==> self@.conversations[i].created_at <= c.created_at,
            r is None <==> forall|i: int|
                0 <= i < self@.conversations.len() ==> !(#[trigger] self@.conversations[i]).current(
                    user_id@,
                    now,
                ),
    {
        proof {
            use_type_invariant(self);
            lemma_find_current(self@.conversations, user_id@, now);
            lemma_found_is_newest(self@.conversations, user_id@, now);
        }
        match self.current_index(user_id, now) {
            Some(i) => Some(self.conversations[i].duplicate()),
            None => None,
        }
    }

    /// The conversation with the identifier `id`, if there is one.
    pub fn get_conversation_by_id(&self, id: u128) -> (r: Option<Conversation>)
        ensures
            found_view(r) == match position_of(self@.conversations, id) {
                Some(i) => Some(self@.conversations[i]),
                None => None,
            },
            r is Some <==> self@.has_conversation(id),
    {
        match self.index_of_conversation(id) {
            Some(i) => Some(self.conversations[i].duplicate()),
            None => None,
        }
    }

    /// Creates a conversation with the identifier `id` for `user_id` at time
    /// `now`. Fails with `DatabaseError`, and changes nothing, where the
    /// identifier is taken or the user has an open conversation already.
    pub fn create_conversation_at(
        &mut self,
        id: u128,
        user_id: &str,
        platform: String,
        metadata: Vec<(String, String)>,
        now: i64,
    ) -> (r: Result<Conversation, ServiceError>)
        ensures
            match r {
                Ok(c) => {
                    &&& old(self)@.can_create(id, user_id@, now)
                    &&& c@ == opened(id, user_id@, platform@, pairs_view(metadata@), now)
                    &&& final(self)@ == old(self)@.create(c@)
                },
                Err(e) => {
                    &&& !old(self)@.can_create(id, user_id@, now)
                    &&& e@.kind == ErrorKind::DatabaseError
                    &&& final(self)@ == old(self)@
                },
            },
    {
        proof {
            use_type_invariant(&*self);
        }
        if self.index_of_conversation(id).is_some() {
            return Err(
                ServiceError::DatabaseError(String::from_str("duplicate conversation identifier")),
            );
        }
        if self.current_index(user_id, now).is_some() {
            return Err(
                ServiceError::DatabaseError(
                    String::from_str("user already has an active conversation"),
                ),
            );
        }
        let c = Conversation {
            id,
            user_id: String::from_str(user_id),
            platform,
            started_at: now,
            ended_at: None,
            is_active: true,
            metadata,
            created_at: now,
        };
        let copy: Conversation = c.duplicate();
        let place: usize = self.conversation_place(now);
        let mut taken: ConversationStore = ConversationStore::new();
        core::mem::swap(self, &mut taken);
        let ConversationStore { conversations, messages } = taken;
        let mut conversations: Vec<Conversation> = conversations;
        let ghost held = conversations@;
        conversations.insert(place, c);
        proof {
            let before = old(self)@;
            let after = StoreModel {
                conversations: conversations_view(conversations@),
                messages: messages_view(messages@),
            };
            held.insert_ensures(place as int, c);
            before.conversations.insert_ensures(place as int, c@);
            assert forall|k: int| 0 <= k < after.conversations.len() implies after.conversations[k]
                == before.conversations.insert(place as int, c@)[k] by {
                if k > place {
                    assert(conversations@[(k - 1) + 1] == held[k - 1]);
                    assert(before.conversations.insert(place as int, c@)[(k - 1) + 1]
                        == before.conversations[k - 1]);
                }
            }
            assert(after.conversations =~= before.conversations.insert(place as int, c@));
            assert(after.messages =~= before.messages);
            lemma_find_current(before.conversations, user_id@, now);
            lemma_create_consistent(before, c@);
        }
        *self = ConversationStore { conversations, messages };
        Ok(copy)
    }

    /// Creates a conversation for `user_id` under a fresh identifier, at the
    /// time that the wall clock shows. Fails with `DatabaseError`, and changes
    /// nothing, where the user has an open conversation already or the
    /// identifier is taken; in a store without conversations it succeeds.
    pub fn create_conversation(
        &mut self,
        user_id: &str,
        platform: String,
        metadata: Vec<(String, String)>,
    ) -> (r: Result<Conversation, ServiceError>)
        ensures
            match r {
                Ok(c) => {
                    &&& old(self)@.can_create(c.id, user_id@, c.started_at)
                    &&& c@ == opened(
                        c.id,
                        user_id@,
                        platform@,
                        pairs_view(metadata@),
                        c.started_at,
                    )
                    &&& final(self)@ == old(self)@.create(c@)
                },
                Err(e) => e@.kind == ErrorKind::DatabaseError && final(self)@ == old(self)@,
            },
            old(self)@.conversations.len() == 0 ==> r is Ok,
    {
        let id: u128 = fresh_id();
        let now: i64 = unix_now();
        self.create_conversation_at(id, user_id, platform, metadata, now)
    }

    /// Finds the open conversation of `user_id` at time `now` or, where there
    /// is none, creates one with the identifier `id`. Fails with
    /// `DatabaseError`, and changes nothing, where one has to be created and
    /// the identifier is taken.
    pub fn resolve_conversation_at(
        &mut self,
        id: u128,
        user_id: &str,
        platform: String,
        metadata: Vec<(String, String)>,
        now: i64,
    ) -> (r: Result<Conversation, ServiceError>)
        ensures
            r is Err <==> old(self)@.active_conversation(user_id@, now) is None && old(
                self,
            )@.has_conversation(id),
            match r {
                Ok(c) => {
                    &&& (final(self)@, c.id) == old(self)@.resolve(
                        id,
                        user_id@,
                        platform@,
                        pairs_view(metadata@),
                        now,
                    )
                    &&& final(self)@.active_conversation(user_id@, now) == Some(c@)
                },
                Err(e) => e@.kind == ErrorKind::DatabaseError && final(self)@ == old(self)@,
            },
    {
        proof {
            use_type_invariant(&*self);
        }
        match self.find_active_conversation(user_id, now) {
            Some(c) => Ok(c),
            None => {
                let r = self.create_conversation_at(id, user_id, platform, metadata, now);
                proof {
                    if r is Ok {
                        lemma_created_is_found(old(self)@, r->Ok_0@, now);
                    }
                }
                r
            },
        }
    }

    /// Closes every conversation that is active and was written more than a
    /// day before `now`, and returns how many those were.
    pub fn close_expired_conversations(&mut self, now: i64) -> (closed: usize)
        ensures
            final(self)@ == old(self)@.sweep(now),
            closed == count_expired(old(self)@.conversations, now),
    {
        proof {
            use_type_invariant(&*self);
        }
        let mut taken: ConversationStore = ConversationStore::new();
        core::mem::swap(self, &mut taken);
        let ConversationStore { conversations, messages } = taken;
        let mut conversations: Vec<Conversation> = conversations;
        let ghost before = conversations_view(conversations@);
        let mut closed: usize = 0;
        let mut i: usize = 0;
        while i < conversations.len()
            invariant
                i <= conversations.len(),
                conversations.len() == before.len(),
                closed == count_expired(before.take(i as int), now),
                closed <= i,
                forall|j: int|
                    0 <= j < i ==> (#[trigger] conversations[j])@ == swept(before, now)[j],
                forall|j: int| i <= j < before.len() ==> (#[trigger] conversations[j])@ == before[j],
            decreases conversations.len() - i,
        {
            proof {
                let t = before.take(i + 1);
                assert(t.last() == before[i as int]);
                assert(t.drop_last() =~= before.take(i as int));
            }
            if conversations[i].is_expired(now) {
                let mut c: Conversation = conversations[i].duplicate();
                c.close(now);
                conversations.set(i, c);
                closed += 1;
            }
            i += 1;
        }
        proof {
            assert(before.take(before.len() as int) =~= before);
            let after = StoreModel {
                conversations: conversations_view(conversations@),
                messages: messages_view(messages@),
            };
            assert(after.conversations =~= swept(before, now));
            assert(after == old(self)@.sweep(now));
            lemma_sweep_consistent(old(self)@, now);
        }
        *self = ConversationStore { conversations, messages };
        closed
    }

    /// Closes the conversation `id` at time `now`, whether or not it is still
    /// active, and returns it as it is then. Fails with `DatabaseError` where
    /// there is no such conversation.
    pub fn close_conversation(&mut self, id: u128, now: i64) -> (r: Result<
        Conversation,
        ServiceError,
    >)
        ensures
            final(self)@ == old(self)@.close(id, now),
            match r {
                Ok(c) => position_of(old(self)@.conversations, id) matches Some(i) && c@ == old(
                    self,
                )@.conversations[i].closed_at(now),
                Err(e) => position_of(old(self)@.conversations, id) is None && e@.kind
                    == ErrorKind::DatabaseError,
            },
    {
        proof {
            use_type_invariant(&*self);
        }
        match self.index_of_conversation(id) {
            None => Err(ServiceError::DatabaseError(String::from_str("no such conversation"))),
            Some(i) => {
                let mut taken: ConversationStore = ConversationStore::new();
                core::mem::swap(self, &mut taken);
                let ConversationStore { conversations, messages } = taken;
                let mut conversations: Vec<Conversation> = conversations;
                let mut c: Conversation = conversations[i].duplicate();
                c.close(now);
                let copy: Conversation = c.duplicate();
                conversations.set(i, c);
                proof {
                    let before = old(self)@;
                    let after = StoreModel {
                        conversations: conversations_view(conversations@),
                        messages: messages_view(messages@),
                    };
                    assert(after.conversations =~= before.conversations.update(
                        i as int,
                        before.conversations[i as int].closed_at(now),
                    ));
                    assert(after == before.close(id, now));
                    lemma_close_consistent(before, i as int, now);
                }
                *self = ConversationStore { conversations, messages };
                Ok(copy)
            },
        }
    }

    fn index_of_message(&self, id: u128) -> (r: Option<usize>)
        ensures
            match r {
                Some(i) => i < self.messages.len() && self.messages[i as int].id == id,
                None => !self@.has_message(id),
            },
    {
        let mut i: usize = 0;
        while i < self.messages.len()
            invariant
                i <= self.messages.len(),
                forall|j: int| 0 <= j < i ==> self.messages[j].id != id,
            decreases self.messages.len() - i,
        {
            if self.messages[i].id == id {
                return Some(i);
            }
            i += 1;
        }
        assert forall|j: int| 0 <= j < self@.messages.len() implies #[trigger] self@.messages[j].id
            != id by {
            assert(self.messages[j].id != id);
        }
        None
    }

    /// Writes a message under the identifier `id` at time `now`. Fails with
    /// `DatabaseError`, and changes nothing, where the identifier is taken or
    /// the conversation does not exist.
    pub fn save_message_at(
        &mut self,
        id: u128,
        conversation_id: u128,
        user_id: &str,
        content: &str,
        thread_id: Option<&str>,
        platform: String,
        metadata: Vec<(String, String)>,
        now: i64,
    ) -> (r: Result<StoredMessage, ServiceError>)
        ensures
            match r {
                Ok(m) => {
                    &&& old(self)@.can_save(id, conversation_id)
                    &&& m@ == written(
                        id,
                        conversation_id,
                        user_id@,
                        content@,
                        match thread_id {
                            Some(t) => Some(t@),
                            None => None,
                        },
                        platform@,
                        pairs_view(metadata@),
                        now,
                    )
                    &&& final(self)@ == old(self)@.save(m@)
                },
                Err(e) => {
                    &&& !old(self)@.can_save(id, conversation_id)
                    &&& e@.kind == ErrorKind::DatabaseError
                    &&& final(self)@ == old(self)@
                },
            },
    {
        proof {
            use_type_invariant(&*self);
        }
        if self.index_of_conversation(conversation_id).is_none() {
            return Err(ServiceError::DatabaseError(String::from_str("no such conversation")));
        }
        let taken_by: Option<usize> = self.index_of_message(id);
        if taken_by.is_some() {
            assert(self@.messages[taken_by->0 as int].id == id);
            return Err(
                ServiceError::DatabaseError(String::from_str("duplicate message identifier")),
            );
        }
        let m = StoredMessage {
            id,
            conversation_id,
            user_id: String::from_str(user_id),
            content: String::from_str(content),
            thread_id: match thread_id {
                Some(t) => Some(String::from_str(t)),
                None => None,
            },
            platform,
            metadata,
            created_at: now,
            failed: false,
            response_length: None,
            processing_time: None,
        };
        let copy: StoredMessage = m.duplicate();
        let place: usize = self.message_place(now);
        let mut taken: ConversationStore = ConversationStore::new();
        core::mem::swap(self, &mut taken);
        let ConversationStore { conversations, messages } = taken;
        let mut messages: Vec<StoredMessage> = messages;
        let ghost held = messages@;
        messages.insert(place, m);
        proof {
            let before = old(self)@;
            let after = StoreModel {
                conversations: conversations_view(conversations@),
                messages: messages_view(messages@),
            };
            held.insert_ensures(place as int, m);
            before.messages.insert_ensures(place as int, m@);
            assert forall|k: int| 0 <= k < after.messages.len() implies after.messages[k]
                == before.messages.insert(place as int, m@)[k] by {
                if k > place {
                    assert(messages@[(k - 1) + 1] == held[k - 1]);
                    assert(before.messages.insert(place as int, m@)[(k - 1) + 1]
                        == before.messages[k - 1]);
                }
            }
            assert(after.messages =~= before.messages.insert(place as int, m@));
            assert(after.conversations =~= before.conversations);
            lemma_save_consistent(before, m@);
        }
        *self = ConversationStore { conversations, messages };
        Ok(copy)
    }

    /// Writes a message under a fresh identifier, at the time that the wall
    /// clock shows. Fails with `DatabaseError`, and changes nothing, where the
    /// conversation does not exist or the identifier is taken; into a
    /// conversation that exists, in a store without messages, it succeeds.
    pub fn save_message(
        &mut self,
        conversation_id: u128,
        user_id: &str,
        content: &str,
        thread_id: Option<&str>,
        platform: String,
        metadata: Vec<(String, String)>,
    ) -> (r: Result<StoredMessage, ServiceError>)
        ensures
            !old(self)@.has_conversation(conversation_id) ==> r is Err,
            old(self)@.has_conversation(conversation_id) && old(self)@.messages.len() == 0
                ==> r is Ok,
            match r {
                Ok(m) => {
                    &&& old(self)@.can_save(m.id, conversation_id)
                    &&& m@ == written(
                        m.id,
                        conversation_id,
                        user_id@,
                        content@,
                        match thread_id {
                            Some(t) => Some(t@),
                            None => None,
                        },
                        platform@,
                        pairs_view(metadata@),
                        m.created_at,
                    )
                    &&& final(self)@ == old(self)@.save(m@)
                },
                Err(e) => e@.kind == ErrorKind::DatabaseError && final(self)@ == old(self)@,
            },
    {
        let id: u128 = fresh_id();
        let now: i64 = unix_now();
        self.save_message_at(id, conversation_id, user_id, content, thread_id, platform, metadata, now)
    }

    /// Marks the message `message_id` as failed. Nothing changes where there
    /// is no such message.
    pub fn mark_message_failed(&mut self, message_id: u128)
        ensures
            final(self)@ == old(self)@.mark_failed(message_id),
    {
        proof {
            use_type_invariant(&*self);
        }
        let found: Option<usize> = self.index_of_message(message_id);
        let mut taken: ConversationStore = ConversationStore::new();
        core::mem::swap(self, &mut taken);
        let ConversationStore { conversations, messages } = taken;
        let mut messages: Vec<StoredMessage> = messages;
        match found {
            Some(i) => {
                let mut m: StoredMessage = messages[i].duplicate();
                m.failed = true;
                messages.set(i, m);
            },
            None => {},
        }
        proof {
            let before = old(self)@;
            let after = StoreModel {
                conversations: conversations_view(conversations@),
                messages: messages_view(messages@),
            };
            assert forall|j: int| 0 <= j < before.messages.len() implies after.messages[j]
                == marked(before.messages[j], message_id) by {
                if before.messages[j].id == message_id {
                    assert(before.has_message(message_id));
                    match found {
                        Some(i) => {
                            assert(before.messages[i as int].id == message_id);
                            if (i as int) < j {
                                assert(before.messages[i as int].id != before.messages[j].id);
                            } else if j < i as int {
                                assert(before.messages[j].id != before.messages[i as int].id);
                            }
                        },
                        None => {},
                    }
                }
            }
            assert(after.messages =~= before.mark_failed(message_id).messages);
            lemma_update_consistent(before, after);
        }
        *self = ConversationStore { conversations, messages };
    }

    /// Records the length of the response to the message `message_id` and
    /// the time that processing took. Nothing changes where there is no such
    /// message.
    pub fn save_response_metrics(
        &mut self,
        message_id: u128,
        response_length: i32,
        processing_time: i64,
    )
        ensures
            final(self)@ == old(self)@.record_metrics(message_id, response_length, processing_time),
    {
        proof {
            use_type_invariant(&*self);
        }
        let found: Option<usize> = self.index_of_message(message_id);
        let mut taken: ConversationStore = ConversationStore::new();
        core::mem::swap(self, &mut taken);
        let ConversationStore { conversations, messages } = taken;
        let mut messages: Vec<StoredMessage> = messages;
        match found {
            Some(i) => {
                let mut m: StoredMessage = messages[i].duplicate();
                m.response_length = Some(response_length);
                m.processing_time = Some(processing_time);
                messages.set(i, m);
            },
            None => {},
        }
        proof {
            let before = old(self)@;
            let after = StoreModel {
                conversations: conversations_view(conversations@),
                messages: messages_view(messages@),
            };
            assert forall|j: int| 0 <= j < before.messages.len() implies after.messages[j]
                == measured(before.messages[j], message_id, response_length, processing_time) by {
                if before.messages[j].id == message_id {
                    assert(before.has_message(message_id));
                    match found {
                        Some(i) => {
                            assert(before.messages[i as int].id == message_id);
                            if (i as int) < j {
                                assert(before.messages[i as int].id != before.messages[j].id);
                            } else if j < i as int {
                                assert(before.messages[j].id != before.messages[i as int].id);
                            }
                        },
                        None => {},
                    }
                }
            }
            assert(after.messages =~= before.record_metrics(
                message_id,
                response_length,
                processing_time,
            ).messages);
            lemma_update_consistent(before, after);
        }
        *self = ConversationStore { conversations, messages };
    }

    fn select_conversations(&self, user_id: &str, include_inactive: bool) -> (r: Vec<Conversation>)
        ensures
            conversations_view(r@) == self@.conversations_of(user_id@, include_inactive),
    {
        let ghost cv = self@.conversations;
        let ghost keep = owned_by(user_id@, include_inactive);
        let mut r: Vec<Conversation> = Vec::new();
        let mut i: usize = self.conversations.len();
        assert(cv.take(i as int) =~= cv);
        assert(conversations_view(r@) + newest_first(cv, keep) =~= newest_first(cv, keep));
        while i > 0
            invariant
                i <= self.conversations.len(),
                cv == conversations_view(self.conversations@),
                keep == owned_by(user_id@, include_inactive),
                conversations_view(r@) + newest_first(cv.take(i as int), keep) == newest_first(
                    cv,
                    keep,
                ),
            decreases i,
        {
            let ghost before = conversations_view(r@);
            let c: &Conversation = &self.conversations[i - 1];
            proof {
                let t = cv.take(i as int);
                assert(t.last() == cv[i - 1]);
                assert(t.drop_last() =~= cv.take(i - 1));
            }
            if (include_inactive || c.is_active) && same_text(c.user_id.as_str(), user_id) {
                r.push(c.duplicate());
                assert(conversations_view(r@) =~= before + seq![c@]);
                assert(conversations_view(r@) + newest_first(cv.take(i - 1), keep) =~= before
                    + newest_first(cv.take(i as int), keep));
            }
            i -= 1;
        }
        assert(conversations_view(r@) + newest_first(cv.take(0), keep) =~= conversations_view(r@));
        r
    }

    fn wanted(&self, m: &StoredMessage, wanted: &Wanted) -> (b: bool)
        ensures
            b == wanted.holds(self@.conversations)(m@),
    {
        match wanted {
            Wanted::SentBy(u) => same_text(m.user_id.as_str(), u),
            Wanted::PartOf(id) => m.conversation_id == *id,
            Wanted::AddressedTo(u) => match self.index_of_conversation(m.conversation_id) {
                Some(i) => {
                    assert(self@.conversations[i as int] == self.conversations[i as int]@);
                    same_text(self.conversations[i].user_id.as_str(), u)
                },
                None => false,
            },
        }
    }

    fn select_messages(&self, wanted: &Wanted) -> (r: Vec<StoredMessage>)
        ensures
            messages_view(r@) == newest_first(self@.messages, wanted.holds(self@.conversations)),
    {
        let ghost mv = self@.messages;
        let ghost keep = wanted.holds(self@.conversations);
        let mut r: Vec<StoredMessage> = Vec::new();
        let mut i: usize = self.messages.len();
        assert(mv.take(i as int) =~= mv);
        assert(messages_view(r@) + newest_first(mv, keep) =~= newest_first(mv, keep));
        while i > 0
            invariant
                i <= self.messages.len(),
                mv == messages_view(self.messages@),
                keep == wanted.holds(self@.conversations),
                messages_view(r@) + newest_first(mv.take(i as int), keep) == newest_first(mv, keep),
            decreases i,
        {
            let ghost before = messages_view(r@);
            let m: &StoredMessage = &self.messages[i - 1];
            proof {
                let t = mv.take(i as int);
                assert(t.last() == mv[i - 1]);
                assert(t.drop_last() =~= mv.take(i - 1));
            }
            if self.wanted(m, wanted) {
                r.push(m.duplicate());
                assert(messages_view(r@) =~= before + seq![m@]);
                assert(messages_view(r@) + newest_first(mv.take(i - 1), keep) =~= before
                    + newest_first(mv.take(i as int), keep));
            }
            i -= 1;
        }
        assert(messages_view(r@) + newest_first(mv.take(0), keep) =~= messages_view(r@));
        r
    }

    /// The conversations of `user_id`, newest first: at most `limit` of them
    /// after the first `offset`. The closed ones are among them only where
    /// `include_inactive` says so. Fails with `DatabaseError` where `limit` or
    /// `offset` is negative.
    pub fn list_user_conversations(
        &self,
        user_id: &str,
        include_inactive: bool,
        limit: i64,
        offset: i64,
    ) -> (r: Result<Vec<Conversation>, ServiceError>)
        ensures
            match r {
                Ok(v) => limit >= 0 && offset >= 0 && conversations_view(v@) == page(
                    self@.conversations_of(user_id@, include_inactive),
                    offset as int,
                    limit as int,
                ),
                Err(e) => (limit < 0 || offset < 0) && e@.kind == ErrorKind::DatabaseError,
            },
    {
        if limit < 0 || offset < 0 {
            return Err(
                ServiceError::DatabaseError(String::from_str("LIMIT and OFFSET must not be negative")),
            );
        }
        let all: Vec<Conversation> = self.select_conversations(user_id, include_inactive);
        let ghost views = conversations_view(all@);
        let v: Vec<Conversation> = window(all, offset, limit);
        assert(conversations_view(v@) =~= page(views, offset as int, limit as int));
        Ok(v)
    }

    /// How many conversations `user_id` has; the closed ones are counted only
    /// where `include_inactive` says so.
    pub fn get_conversation_count(&self, user_id: &str, include_inactive: bool) -> (n: usize)
        ensures
            n == self@.conversations_of(user_id@, include_inactive).len(),
    {
        let all: Vec<Conversation> = self.select_conversations(user_id, include_inactive);
        assert(conversations_view(all@).len() == all@.len());
        all.len()
    }

    /// The messages that `user_id` sent, newest first, at most `limit` of
    /// them. Fails with `DatabaseError` where `limit` is negative.
    pub fn get_recent_messages(&self, user_id: &str, limit: i64) -> (r: Result<
        Vec<StoredMessage>,
        ServiceError,
    >)
        ensures
            match r {
                Ok(v) => limit >= 0 && messages_view(v@) == page(
                    self@.messages_of(user_id@),
                    0,
                    limit as int,
                ),
                Err(e) => limit < 0 && e@.kind == ErrorKind::DatabaseError,
            },
    {
        if limit < 0 {
            return Err(ServiceError::DatabaseError(String::from_str("LIMIT must not be negative")));
        }
        let all: Vec<StoredMessage> = self.select_messages(&Wanted::SentBy(user_id));
        let ghost views = messages_view(all@);
        let v: Vec<StoredMessage> = window(all, 0, limit);
        assert(messages_view(v@) =~= page(views, 0, limit as int));
        Ok(v)
    }

    /// The messages of the conversation `conversation_id`, newest first: at
    /// most `limit` of them after the first `offset`, or after none where no
    /// offset is given. Fails with `DatabaseError` where `limit` or `offset`
    /// is negative.
    pub fn get_conversation_messages(
        &self,
        conversation_id: u128,
        offset: Option<i64>,
        limit: i64,
    ) -> (r: Result<Vec<StoredMessage>, ServiceError>)
        ensures
            match r {
                Ok(v) => limit >= 0 && offset.unwrap_or(0) >= 0 && messages_view(v@) == page(
                    self@.messages_in(conversation_id),
                    offset.unwrap_or(0) as int,
                    limit as int,
                ),
                Err(e) => (limit < 0 || offset.unwrap_or(0) < 0) && e@.kind
                    == ErrorKind::DatabaseError,
            },
    {
        let skip: i64 = match offset {
            Some(n) => n,
            None => 0,
        };
        if limit < 0 || skip < 0 {
            return Err(
                ServiceError::DatabaseError(String::from_str("LIMIT and OFFSET must not be negative")),
            );
        }
        let all: Vec<StoredMessage> = self.select_messages(&Wanted::PartOf(conversation_id));
        let ghost views = messages_view(all@);
        let v: Vec<StoredMessage> = window(all, skip, limit);
        assert(messages_view(v@) =~= page(views, skip as int, limit as int));
        Ok(v)
    }

    /// Both sides of the exchanges of `user_id`: the messages in the user's
    /// conversations, newest first, at most `limit` of them. Fails with
    /// `DatabaseError` where `limit` is negative.
    pub fn get_conversation_history(&self, user_id: &str, limit: i64) -> (r: Result<
        Vec<StoredMessage>,
        ServiceError,
    >)
        ensures
            match r {
                Ok(v) => limit >= 0 && messages_view(v@) == page(
                    self@.history_of(user_id@),
                    0,
                    limit as int,
                ),
                Err(e) => limit < 0 && e@.kind == ErrorKind::DatabaseError,
            },
    {
        if limit < 0 {
            return Err(ServiceError::DatabaseError(String::from_str("LIMIT must not be negative")));
        }
        let all: Vec<StoredMessage> = self.select_messages(&Wanted::AddressedTo(user_id));
        let ghost views = messages_view(all@);
        let v: Vec<StoredMessage> = window(all, 0, limit);
        assert(messages_view(v@) =~= page(views, 0, limit as int));
        Ok(v)
    }
}

/// Which messages a query asks for.
enum Wanted<'a> {
    /// Those that a user sent.
    SentBy(&'a str),
    /// Those of one conversation.
    PartOf(u128),
    /// Those in the conversations of a user.
    AddressedTo(&'a str),
}

impl<'a> Wanted<'a> {
    spec fn holds(self, conversations: Seq<ConversationView>) -> spec_fn(StoredMessageView) -> bool {
        match self {
            Wanted::SentBy(u) => sent_by(u@),
            Wanted::PartOf(id) => part_of(id),
            Wanted::AddressedTo(u) => addressed_to(conversations, u@),
        }
    }
}

/// The part of `all` that lies `offset` items in and is at most `limit` long.
fn window<T>(all: Vec<T>, offset: i64, limit: i64) -> (r: Vec<T>)
    requires
        offset >= 0,
        limit >= 0,
    ensures
        r@ == page(all@, offset as int, limit as int),
{
    let mut all: Vec<T> = all;
    let ghost whole = all@;
    let n: usize = all.len();
    let start: usize = if (offset as u64) < (n as u64) {
        offset as usize
    } else {
        n
    };
    let end: usize = if (offset as u128) + (limit as u128) < (n as u128) {
        ((offset as u128) + (limit as u128)) as usize
    } else {
        n
    };
    all.truncate(end);
    let r: Vec<T> = all.split_off(start);
    assert(r@ =~= page(whole, offset as int, limit as int));
    r
}

} // verus!
