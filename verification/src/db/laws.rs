//! What holds of every store, and what follows from the meaning of its
//! operations.

use crate::constants::CONVERSATION_TIMEOUT;
use crate::db::model::{
    conversation_slot, conversations_in_order, count_expired, find_current, message_slot,
    messages_in_order, opened, position_of, StoreModel,
};
use crate::db::models::{ConversationView, StoredMessageView};
use vstd::prelude::*;

verus! {

/// What is found as a user's open conversation is the last of the
/// conversations that is open for the user; where nothing is found, none is
/// open.
pub proof fn lemma_find_current(conversations: Seq<ConversationView>, user: Seq<char>, now: i64)
    ensures
        match find_current(conversations, user, now) {
            Some(c) => c.current(user, now) && exists|k: int|
                0 <= k < conversations.len() && conversations[k] == c && forall|i: int|
                    k < i < conversations.len() ==> !(#[trigger] conversations[i]).current(
                        user,
                        now,
                    ),
            None => forall|i: int|
                0 <= i < conversations.len() ==> !(#[trigger] conversations[i]).current(user, now),
        },
    decreases conversations.len(),
{
    if conversations.len() > 0 {
        let front = conversations.drop_last();
        if conversations.last().current(user, now) {
            let k = conversations.len() - 1;
            assert(conversations[k] == conversations.last());
        } else {
            lemma_find_current(front, user, now);
            match find_current(front, user, now) {
                Some(c) => {
                    let k = choose|k: int|
                        0 <= k < front.len() && front[k] == c && forall|i: int|
                            k < i < front.len() ==> !(#[trigger] front[i]).current(user, now);
                    assert(conversations[k] == c);
                    assert forall|i: int| k < i < conversations.len() implies !(
                    #[trigger] conversations[i]).current(user, now) by {
                        if i < conversations.len() - 1 {
                            assert(front[i] == conversations[i]);
                        }
                    }
                },
                None => {
                    assert forall|i: int| 0 <= i < conversations.len() implies !(
                    #[trigger] conversations[i]).current(user, now) by {
                        if i < conversations.len() - 1 {
                            assert(front[i] == conversations[i]);
                        }
                    }
                },
            }
        }
    }
}

/// The conversation at place `k` is the one that is found where it is open
/// for the user and none behind it is.
pub proof fn lemma_find_current_at(
    conversations: Seq<ConversationView>,
    k: int,
    user: Seq<char>,
    now: i64,
)
    requires
        0 <= k < conversations.len(),
        conversations[k].current(user, now),
        forall|i: int|
            k < i < conversations.len() ==> !(#[trigger] conversations[i]).current(user, now),
    ensures
        find_current(conversations, user, now) == Some(conversations[k]),
    decreases conversations.len(),
{
    if k < conversations.len() - 1 {
        assert(!conversations[conversations.len() - 1].current(user, now));
        let front = conversations.drop_last();
        assert(front[k] == conversations[k]);
        assert forall|i: int| k < i < front.len() implies !(#[trigger] front[i]).current(
            user,
            now,
        ) by {
            assert(front[i] == conversations[i]);
        }
        lemma_find_current_at(front, k, user, now);
    }
}

/// Of the conversations that are open for a user, the one that is found was
/// written last.
pub proof fn lemma_found_is_newest(conversations: Seq<ConversationView>, user: Seq<char>, now: i64)
    requires
        conversations_in_order(conversations),
    ensures
        find_current(conversations, user, now) matches Some(c) ==> forall|i: int|
            0 <= i < conversations.len() && (#[trigger] conversations[i]).current(user, now)
                ==> conversations[i].created_at <= c.created_at,
{
    lemma_find_current(conversations, user, now);
    match find_current(conversations, user, now) {
        Some(c) => {
            let k = choose|k: int|
                0 <= k < conversations.len() && conversations[k] == c && forall|i: int|
                    k < i < conversations.len() ==> !(#[trigger] conversations[i]).current(
                        user,
                        now,
                    );
            assert forall|i: int|
                0 <= i < conversations.len() && (#[trigger] conversations[i]).current(
                    user,
                    now,
                ) implies conversations[i].created_at <= c.created_at by {
                assert(i <= k);
                assert(conversations[i].created_at <= conversations[k].created_at);
            }
        },
        None => {},
    }
}

/// The place that a conversation written at time `now` takes lies behind
/// every conversation written at `now` or before and, among conversations
/// that stand in order, before every one written later.
pub proof fn lemma_conversation_slot(conversations: Seq<ConversationView>, now: i64)
    ensures
        0 <= conversation_slot(conversations, now) <= conversations.len(),
        forall|i: int|
            conversation_slot(conversations, now) <= i < conversations.len() ==> (
            #[trigger] conversations[i]).created_at > now,
        conversations_in_order(conversations) ==> forall|i: int|
            0 <= i < conversation_slot(conversations, now) ==> (
            #[trigger] conversations[i]).created_at <= now,
    decreases conversations.len(),
{
    if conversations.len() > 0 {
        let front = conversations.drop_last();
        let last = conversations.len() - 1;
        if conversations.last().created_at > now {
            lemma_conversation_slot(front, now);
            assert forall|i: int|
                conversation_slot(conversations, now) <= i < conversations.len() implies (
            #[trigger] conversations[i]).created_at > now by {
                if i < last {
                    assert(front[i] == conversations[i]);
                }
            }
            if conversations_in_order(conversations) {
                assert forall|i: int, j: int| 0 <= i <= j < front.len() implies (
                #[trigger] front[i]).created_at <= (#[trigger] front[j]).created_at by {
                    assert(conversations[i].created_at <= conversations[j].created_at);
                }
                assert forall|i: int| 0 <= i < conversation_slot(conversations, now) implies (
                #[trigger] conversations[i]).created_at <= now by {
                    assert(front[i] == conversations[i]);
                }
            }
        } else {
            if conversations_in_order(conversations) {
                assert forall|i: int| 0 <= i < conversations.len() implies (
                #[trigger] conversations[i]).created_at <= now by {
                    assert(conversations[i].created_at <= conversations[last].created_at);
                }
            }
        }
    }
}

/// The place that a message written at time `now` takes lies behind every
/// message written at `now` or before and, among messages that stand in
/// order, before every one written later.
pub proof fn lemma_message_slot(messages: Seq<StoredMessageView>, now: i64)
    ensures
        0 <= message_slot(messages, now) <= messages.len(),
        forall|i: int|
            message_slot(messages, now) <= i < messages.len() ==> (
            #[trigger] messages[i]).created_at > now,
        messages_in_order(messages) ==> forall|i: int|
            0 <= i < message_slot(messages, now) ==> (#[trigger] messages[i]).created_at <= now,
    decreases messages.len(),
{
    if messages.len() > 0 {
        let front = messages.drop_last();
        let last = messages.len() - 1;
        if messages.last().created_at > now {
            lemma_message_slot(front, now);
            assert forall|i: int| message_slot(messages, now) <= i < messages.len() implies (
            #[trigger] messages[i]).created_at > now by {
                if i < last {
                    assert(front[i] == messages[i]);
                }
            }
            if messages_in_order(messages) {
                assert forall|i: int, j: int| 0 <= i <= j < front.len() implies (
                #[trigger] front[i]).created_at <= (#[trigger] front[j]).created_at by {
                    assert(messages[i].created_at <= messages[j].created_at);
                }
                assert forall|i: int| 0 <= i < message_slot(messages, now) implies (
                #[trigger] messages[i]).created_at <= now by {
                    assert(front[i] == messages[i]);
                }
            }
        } else {
            if messages_in_order(messages) {
                assert forall|i: int| 0 <= i < messages.len() implies (
                #[trigger] messages[i]).created_at <= now by {
                    assert(messages[i].created_at <= messages[last].created_at);
                }
            }
        }
    }
}

/// A conversation is found by its identifier where it is there, and the one
/// that is found has that identifier.
pub proof fn lemma_position_of(conversations: Seq<ConversationView>, id: u128)
    ensures
        match position_of(conversations, id) {
            Some(i) => 0 <= i < conversations.len() && conversations[i].id == id,
            None => forall|i: int|
                0 <= i < conversations.len() ==> (#[trigger] conversations[i]).id != id,
        },
    decreases conversations.len(),
{
    if conversations.len() > 0 && conversations.last().id != id {
        lemma_position_of(conversations.drop_last(), id);
        assert forall|i: int| 0 <= i < conversations.len() - 1 implies conversations.drop_last()[i]
            == conversations[i] by {}
    }
}

/// Writing a message into a conversation that exists keeps a store
/// consistent.
pub proof fn lemma_save_consistent(s: StoreModel, m: StoredMessageView)
    requires
        s.consistent(),
        s.can_save(m.id, m.conversation_id),
    ensures
        s.save(m).consistent(),
{
    let t = s.save(m);
    let p = message_slot(s.messages, m.created_at);
    lemma_message_slot(s.messages, m.created_at);
    s.messages.insert_ensures(p, m);
    assert forall|k: int| 0 <= k < t.messages.len() implies (k == p && t.messages[k] == m) || (k
        < p && t.messages[k] == s.messages[k]) || (k > p && t.messages[k] == s.messages[k - 1]) by {
        if k > p {
            assert(t.messages[(k - 1) + 1] == s.messages[k - 1]);
        }
    }
    assert forall|i: int, j: int| 0 <= i < j < t.messages.len() implies #[trigger] t.messages[i].id
        != #[trigger] t.messages[j].id by {
        let a = if i < p { i } else { i - 1 };
        let b = if j < p { j } else { j - 1 };
        if i == p {
            assert(s.messages[b].id != m.id);
        } else if j == p {
            assert(s.messages[a].id != m.id);
        } else {
            assert(s.messages[a].id != s.messages[b].id);
        }
    }
    assert forall|k: int| 0 <= k < t.messages.len() implies t.has_conversation(
        #[trigger] t.messages[k].conversation_id,
    ) by {
        if k != p {
            let a = if k < p { k } else { k - 1 };
            assert(s.has_conversation(s.messages[a].conversation_id));
        }
    }
    assert forall|i: int, j: int| 0 <= i <= j < t.messages.len() implies (
    #[trigger] t.messages[i]).created_at <= (#[trigger] t.messages[j]).created_at by {
        let a = if i < p { i } else { i - 1 };
        let b = if j < p { j } else { j - 1 };
        if i == p && j == p {
        } else if i == p {
            assert(s.messages[b].created_at > m.created_at);
        } else if j == p {
            assert(s.messages[a].created_at <= m.created_at);
        } else {
            assert(s.messages[a].created_at <= s.messages[b].created_at);
        }
    }
}

/// A change to the messages that keeps their identifiers, conversations and
/// times keeps a store consistent.
pub proof fn lemma_update_consistent(s: StoreModel, t: StoreModel)
    requires
        s.consistent(),
        t.conversations == s.conversations,
        t.messages.len() == s.messages.len(),
        forall|i: int|
            0 <= i < s.messages.len() ==> (#[trigger] t.messages[i]).id == s.messages[i].id
                && t.messages[i].conversation_id == s.messages[i].conversation_id
                && t.messages[i].created_at == s.messages[i].created_at,
    ensures
        t.consistent(),
{
    assert forall|i: int, j: int| 0 <= i <= j < t.messages.len() implies (
    #[trigger] t.messages[i]).created_at <= (#[trigger] t.messages[j]).created_at by {
        assert(s.messages[i].created_at <= s.messages[j].created_at);
    }
    assert forall|i: int, j: int| 0 <= i < j < t.messages.len() implies #[trigger] t.messages[i].id
        != #[trigger] t.messages[j].id by {
        assert(s.messages[i].id != s.messages[j].id);
    }
    assert forall|k: int| 0 <= k < t.messages.len() implies t.has_conversation(
        #[trigger] t.messages[k].conversation_id,
    ) by {
        assert(s.has_conversation(s.messages[k].conversation_id));
    }
}

/// Creating a conversation keeps a store consistent.
pub proof fn lemma_create_consistent(s: StoreModel, c: ConversationView)
    requires
        s.consistent(),
        !s.has_conversation(c.id),
        c.is_active,
        c.created_at == c.started_at,
        forall|i: int|
            0 <= i < s.conversations.len() ==> !(#[trigger] s.conversations[i]).current(
                c.user_id,
                c.started_at,
            ),
    ensures
        s.create(c).consistent(),
{
    let t = s.create(c);
    let p = conversation_slot(s.conversations, c.created_at);
    lemma_conversation_slot(s.conversations, c.created_at);
    lemma_created_places(s.conversations, c);
    assert forall|k: int| 0 <= k < t.messages.len() implies t.has_conversation(
        #[trigger] t.messages[k].conversation_id,
    ) by {
        assert(s.has_conversation(s.messages[k].conversation_id));
        let i = choose|i: int|
            0 <= i < s.conversations.len() && #[trigger] s.conversations[i].id
                == s.messages[k].conversation_id;
        let x = if i < p { i } else { i + 1 };
        assert(t.conversations[x].id == s.messages[k].conversation_id);
    }
    assert forall|i: int, j: int|
        0 <= i < j < t.conversations.len() implies #[trigger] t.conversations[i].id
        != #[trigger] t.conversations[j].id by {
        let a = if i < p { i } else { i - 1 };
        let b = if j < p { j } else { j - 1 };
        if i == p {
            assert(s.conversations[b].id != c.id);
        } else if j == p {
            assert(s.conversations[a].id != c.id);
        } else {
            assert(s.conversations[a].id != s.conversations[b].id);
        }
    }
    assert forall|i: int, j: int|
        #![trigger t.conversations[i], t.conversations[j]]
        0 <= i < t.conversations.len() && 0 <= j < t.conversations.len() && i != j
            && t.conversations[i].is_active && t.conversations[j].is_active
            && t.conversations[i].user_id
            == t.conversations[j].user_id implies t.conversations[i].started_at
        - t.conversations[j].started_at >= CONVERSATION_TIMEOUT || t.conversations[j].started_at
        - t.conversations[i].started_at >= CONVERSATION_TIMEOUT by {
        let a = if i < p { i } else { i - 1 };
        let b = if j < p { j } else { j - 1 };
        if i == p {
            assert(!s.conversations[b].current(c.user_id, c.started_at));
        } else if j == p {
            assert(!s.conversations[a].current(c.user_id, c.started_at));
        } else {
            let x = s.conversations[a];
            let y = s.conversations[b];
            assert(x.is_active && y.is_active);
        }
    }
    assert forall|i: int, j: int| 0 <= i <= j < t.conversations.len() implies (
    #[trigger] t.conversations[i]).created_at <= (#[trigger] t.conversations[j]).created_at by {
        let a = if i < p { i } else { i - 1 };
        let b = if j < p { j } else { j - 1 };
        if i == p && j == p {
        } else if i == p {
            assert(s.conversations[b].created_at > c.created_at);
        } else if j == p {
            assert(s.conversations[a].created_at <= c.created_at);
        } else {
            assert(s.conversations[a].created_at <= s.conversations[b].created_at);
        }
    }
    assert forall|i: int| 0 <= i < t.conversations.len() implies (
    #[trigger] t.conversations[i]).created_at == t.conversations[i].started_at by {
        if i != p {
            let a = if i < p { i } else { i - 1 };
            assert(s.conversations[a].created_at == s.conversations[a].started_at);
        }
    }
}

/// Where the conversations stand once `c` is created: `c` at its place,
/// those before it where they were, those behind it one place further on.
pub proof fn lemma_created_places(conversations: Seq<ConversationView>, c: ConversationView)
    ensures
        ({
            let p = conversation_slot(conversations, c.created_at);
            let t = conversations.insert(p, c);
            &&& 0 <= p <= conversations.len()
            &&& t.len() == conversations.len() + 1
            &&& t[p] == c
            &&& forall|k: int| 0 <= k < p ==> #[trigger] t[k] == conversations[k]
            &&& forall|k: int| p < k < t.len() ==> #[trigger] t[k] == conversations[k - 1]
        }),
{
    let p = conversation_slot(conversations, c.created_at);
    lemma_conversation_slot(conversations, c.created_at);
    conversations.insert_ensures(p, c);
    let t = conversations.insert(p, c);
    assert forall|k: int| p < k < t.len() implies #[trigger] t[k] == conversations[k - 1] by {
        assert(t[(k - 1) + 1] == conversations[k - 1]);
    }
}

/// A conversation that is created where its user has none open is the one
/// that is found for the user until a day after it began.
pub proof fn lemma_created_is_found(s: StoreModel, c: ConversationView, t: i64)
    requires
        s.consistent(),
        s.active_conversation(c.user_id, c.started_at) is None,
        c.is_active,
        c.created_at == c.started_at,
        t - c.started_at < CONVERSATION_TIMEOUT,
    ensures
        s.create(c).active_conversation(c.user_id, t) == Some(c),
{
    let p = conversation_slot(s.conversations, c.created_at);
    let after = s.create(c).conversations;
    lemma_conversation_slot(s.conversations, c.created_at);
    lemma_created_places(s.conversations, c);
    lemma_find_current(s.conversations, c.user_id, c.started_at);
    assert forall|i: int| p < i < after.len() implies !(#[trigger] after[i]).current(
        c.user_id,
        t,
    ) by {
        let x = s.conversations[i - 1];
        assert(!x.current(c.user_id, c.started_at));
        assert(x.created_at > c.created_at);
        assert(x.created_at == x.started_at);
    }
    lemma_find_current_at(after, p, c.user_id, t);
}

/// Closing conversations keeps a store consistent.
pub proof fn lemma_sweep_consistent(s: StoreModel, now: i64)
    requires
        s.consistent(),
    ensures
        s.sweep(now).consistent(),
{
    let t = s.sweep(now);
    assert forall|i: int, j: int| 0 <= i <= j < t.conversations.len() implies (
    #[trigger] t.conversations[i]).created_at <= (#[trigger] t.conversations[j]).created_at by {
        assert(s.conversations[i].created_at <= s.conversations[j].created_at);
    }
    assert forall|i: int| 0 <= i < t.conversations.len() implies (
    #[trigger] t.conversations[i]).created_at == t.conversations[i].started_at by {
        assert(s.conversations[i].created_at == s.conversations[i].started_at);
    }
    assert forall|k: int| 0 <= k < t.messages.len() implies t.has_conversation(
        #[trigger] t.messages[k].conversation_id,
    ) by {
        assert(s.has_conversation(s.messages[k].conversation_id));
        let i = choose|i: int|
            0 <= i < s.conversations.len() && #[trigger] s.conversations[i].id
                == s.messages[k].conversation_id;
        assert(t.conversations[i].id == s.messages[k].conversation_id);
    }
    assert forall|i: int, j: int|
        0 <= i < j < t.conversations.len() implies #[trigger] t.conversations[i].id
        != #[trigger] t.conversations[j].id by {
        assert(s.conversations[i].id != s.conversations[j].id);
    }
    assert forall|i: int, j: int|
        #![trigger t.conversations[i], t.conversations[j]]
        0 <= i < t.conversations.len() && 0 <= j < t.conversations.len() && i != j
            && t.conversations[i].is_active && t.conversations[j].is_active
            && t.conversations[i].user_id
            == t.conversations[j].user_id implies t.conversations[i].started_at
        - t.conversations[j].started_at >= CONVERSATION_TIMEOUT || t.conversations[j].started_at
        - t.conversations[i].started_at >= CONVERSATION_TIMEOUT by {
        let a = s.conversations[i];
        let b = s.conversations[j];
        assert(a.is_active && b.is_active);
    }
}

/// Closing one conversation keeps a store consistent.
pub proof fn lemma_close_consistent(s: StoreModel, i: int, now: i64)
    requires
        s.consistent(),
        0 <= i < s.conversations.len(),
    ensures
        (StoreModel {
            conversations: s.conversations.update(i, s.conversations[i].closed_at(now)),
            ..s
        }).consistent(),
{
    let t = StoreModel {
        conversations: s.conversations.update(i, s.conversations[i].closed_at(now)),
        ..s
    };
    assert forall|a: int, b: int| 0 <= a <= b < t.conversations.len() implies (
    #[trigger] t.conversations[a]).created_at <= (#[trigger] t.conversations[b]).created_at by {
        assert(s.conversations[a].created_at <= s.conversations[b].created_at);
    }
    assert forall|a: int| 0 <= a < t.conversations.len() implies (
    #[trigger] t.conversations[a]).created_at == t.conversations[a].started_at by {
        assert(s.conversations[a].created_at == s.conversations[a].started_at);
    }
    assert forall|k: int| 0 <= k < t.messages.len() implies t.has_conversation(
        #[trigger] t.messages[k].conversation_id,
    ) by {
        assert(s.has_conversation(s.messages[k].conversation_id));
        let j = choose|j: int|
            0 <= j < s.conversations.len() && #[trigger] s.conversations[j].id
                == s.messages[k].conversation_id;
        assert(t.conversations[j].id == s.messages[k].conversation_id);
    }
    assert forall|a: int, b: int|
        0 <= a < b < t.conversations.len() implies #[trigger] t.conversations[a].id
        != #[trigger] t.conversations[b].id by {
        assert(s.conversations[a].id != s.conversations[b].id);
    }
    assert forall|a: int, b: int|
        #![trigger t.conversations[a], t.conversations[b]]
        0 <= a < t.conversations.len() && 0 <= b < t.conversations.len() && a != b
            && t.conversations[a].is_active && t.conversations[b].is_active
            && t.conversations[a].user_id
            == t.conversations[b].user_id implies t.conversations[a].started_at
        - t.conversations[b].started_at >= CONVERSATION_TIMEOUT || t.conversations[b].started_at
        - t.conversations[a].started_at >= CONVERSATION_TIMEOUT by {
        let x = s.conversations[a];
        let y = s.conversations[b];
        assert(x.is_active && y.is_active);
    }
}

/// Where none of `conversations` is open for `user` at time `now`, none is
/// found, and the other way round.
pub proof fn lemma_none_current(conversations: Seq<ConversationView>, user: Seq<char>, now: i64)
    ensures
        find_current(conversations, user, now) is None <==> forall|i: int|
            0 <= i < conversations.len() ==> !(#[trigger] conversations[i]).current(user, now),
{
    lemma_find_current(conversations, user, now);
}

/// Finding or creating a conversation is idempotent within a day: where a
/// user's message at time `t0` opened a conversation, a message of the same
/// user that comes less than [`CONVERSATION_TIMEOUT`] seconds after `t0` is
/// resolved to that conversation and changes nothing in the store.
pub proof fn lemma_resolve_same_conversation(
    s: StoreModel,
    user: Seq<char>,
    id0: u128,
    platform0: Seq<char>,
    metadata0: Seq<(Seq<char>, Seq<char>)>,
    t0: i64,
    id1: u128,
    platform1: Seq<char>,
    metadata1: Seq<(Seq<char>, Seq<char>)>,
    t1: i64,
)
    requires
        s.consistent(),
        s.active_conversation(user, t0) is None,
        t1 - t0 < CONVERSATION_TIMEOUT,
    ensures
        s.resolve(id0, user, platform0, metadata0, t0).1 == id0,
        s.resolve(id0, user, platform0, metadata0, t0).0.resolve(
            id1,
            user,
            platform1,
            metadata1,
            t1,
        ) == (s.resolve(id0, user, platform0, metadata0, t0).0, id0),
{
    lemma_created_is_found(s, opened(id0, user, platform0, metadata0, t0), t1);
}

/// A day later the conversation is over: where a user's message at time `t0`
/// opened a conversation, a message of the same user that comes
/// [`CONVERSATION_TIMEOUT`] seconds or more after `t0` finds no open
/// conversation and is resolved to a new one.
pub proof fn lemma_resolve_new_conversation(
    s: StoreModel,
    user: Seq<char>,
    id0: u128,
    platform0: Seq<char>,
    metadata0: Seq<(Seq<char>, Seq<char>)>,
    t0: i64,
    id2: u128,
    platform2: Seq<char>,
    metadata2: Seq<(Seq<char>, Seq<char>)>,
    t2: i64,
)
    requires
        s.active_conversation(user, t0) is None,
        t2 - t0 >= CONVERSATION_TIMEOUT,
    ensures
        s.resolve(id0, user, platform0, metadata0, t0).0.active_conversation(user, t2) is None,
        s.resolve(id0, user, platform0, metadata0, t0).0.resolve(
            id2,
            user,
            platform2,
            metadata2,
            t2,
        ) == (
            s.resolve(id0, user, platform0, metadata0, t0).0.create(
                opened(id2, user, platform2, metadata2, t2),
            ),
            id2,
        ),
{
    let c = opened(id0, user, platform0, metadata0, t0);
    let s1 = s.resolve(id0, user, platform0, metadata0, t0).0;
    let p = conversation_slot(s.conversations, t0);
    lemma_none_current(s.conversations, user, t0);
    lemma_created_places(s.conversations, c);
    assert forall|i: int| 0 <= i < s1.conversations.len() implies !(
    #[trigger] s1.conversations[i]).current(user, t2) by {
        if i < p {
            assert(!s.conversations[i].current(user, t0));
        } else if i > p {
            assert(!s.conversations[i - 1].current(user, t0));
        }
    }
    lemma_none_current(s1.conversations, user, t2);
}

/// After a sweep nothing is left to close.
pub proof fn lemma_none_expired(conversations: Seq<ConversationView>, now: i64)
    requires
        forall|i: int| 0 <= i < conversations.len() ==> !(#[trigger] conversations[i]).expired(now),
    ensures
        count_expired(conversations, now) == 0,
    decreases conversations.len(),
{
    if conversations.len() > 0 {
        assert(!conversations[conversations.len() - 1].expired(now));
        assert forall|i: int| 0 <= i < conversations.drop_last().len() implies !(
        #[trigger] conversations.drop_last()[i]).expired(now) by {
            assert(!conversations[i].expired(now));
        }
        lemma_none_expired(conversations.drop_last(), now);
    }
}

/// The sweep is idempotent: a second sweep at the same time closes nothing
/// and leaves the store as the first one left it.
pub proof fn lemma_sweep_idempotent(s: StoreModel, now: i64)
    ensures
        count_expired(s.sweep(now).conversations, now) == 0,
        s.sweep(now).sweep(now) == s.sweep(now),
{
    let t = s.sweep(now);
    assert forall|i: int| 0 <= i < t.conversations.len() implies !(
    #[trigger] t.conversations[i]).expired(now) by {}
    lemma_none_expired(t.conversations, now);
    assert(t.sweep(now).conversations =~= t.conversations);
}

} // verus!
