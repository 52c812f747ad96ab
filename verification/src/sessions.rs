//! The in-memory record of who is in a session.
//!
//! These sessions are tracked apart from the durable conversations and run on
//! a clock of their own: a session counts as expired after five minutes
//! without a message, while a conversation stays open for a day.

use crate::models::conversation::{AgentAction, ConversationState};
use crate::table::{distinct, has_key, index_of, UserTable};
use crate::text::clone_opt;
use vstd::prelude::*;

verus! {

/// The count after one more message; it stays at its largest value once it
/// has reached it.
pub open spec fn bumped(count: u32) -> u32 {
    if count == u32::MAX {
        u32::MAX
    } else {
        (count + 1) as u32
    }
}

/// The session of a user after a processed message at time `now`: the session
/// so far with one more message counted, or, for a user without one, a new
/// session on `platform` that counts this message.
pub open spec fn touched(before: Option<ConversationState>, platform: String, now: i64)
    -> ConversationState {
    match before {
        Some(s) => ConversationState {
            message_count: bumped(s.message_count),
            last_activity: now,
            ..s
        },
        None => ConversationState {
            platform,
            last_action: AgentAction::Ignore,
            message_count: 1,
            active: true,
            thread_id: None,
            last_activity: now,
            retry_attempts: 0,
        },
    }
}

/// The session that `sessions` holds for `user`, if any.
pub open spec fn session_of(sessions: Map<Seq<char>, ConversationState>, user: Seq<char>)
    -> Option<ConversationState> {
    if sessions.contains_key(user) {
        Some(sessions[user])
    } else {
        None
    }
}

/// `sessions` after a processed message of `user` on `platform` at time `now`.
pub open spec fn recorded(
    sessions: Map<Seq<char>, ConversationState>,
    user: Seq<char>,
    platform: String,
    now: i64,
) -> Map<Seq<char>, ConversationState> {
    sessions.insert(user, touched(session_of(sessions, user), platform, now))
}

/// `sessions` without those that have been idle for longer than the session
/// timeout at time `now`.
pub open spec fn kept(sessions: Map<Seq<char>, ConversationState>, now: i64) -> Map<
    Seq<char>,
    ConversationState,
> {
    Map::new(
        |k: Seq<char>| sessions.contains_key(k) && !sessions[k].is_expired(now),
        |k: Seq<char>| sessions[k],
    )
}

/// `sessions` without those of the users `done` that have been idle for
/// longer than the session timeout at time `now`.
pub open spec fn kept_of(
    sessions: Map<Seq<char>, ConversationState>,
    done: Seq<String>,
    now: i64,
) -> Map<Seq<char>, ConversationState> {
    Map::new(
        |k: Seq<char>|
            sessions.contains_key(k) && !(has_key(done, k) && sessions[k].is_expired(now)),
        |k: Seq<char>| sessions[k],
    )
}

/// The sessions of all users, keyed by user identifier.
pub struct SessionMap {
    sessions: UserTable<ConversationState>,
}

impl View for SessionMap {
    type V = Map<Seq<char>, ConversationState>;

    closed spec fn view(&self) -> Map<Seq<char>, ConversationState> {
        self.sessions@
    }
}

impl SessionMap {
    /// No sessions.
    pub fn new() -> (m: Self)
        ensures
            m@ == Map::<Seq<char>, ConversationState>::empty(),
    {
        SessionMap { sessions: UserTable::new() }
    }

    /// The session of `user_id`, if there is one.
    pub fn get(&self, user_id: &str) -> (s: Option<&ConversationState>)
        ensures
            match s {
                Some(state) => session_of(self@, user_id@) == Some(*state),
                None => session_of(self@, user_id@) is None,
            },
    {
        self.sessions.get(user_id)
    }

    /// Records a processed message of `user_id` at time `now`: the first one
    /// opens a session on `platform`, every one is counted and moves the time
    /// of last activity.
    pub fn record_message(&mut self, user_id: &str, platform: &String, now: i64)
        ensures
            final(self)@ == recorded(old(self)@, user_id@, *platform, now),
    {
        let next: ConversationState = match self.sessions.get(user_id) {
            Some(s) => ConversationState {
                platform: s.platform.clone(),
                last_action: s.last_action,
                message_count: if s.message_count == u32::MAX {
                    u32::MAX
                } else {
                    s.message_count + 1
                },
                active: s.active,
                thread_id: clone_opt(&s.thread_id),
                last_activity: now,
                retry_attempts: s.retry_attempts,
            },
            None => ConversationState {
                platform: platform.clone(),
                last_action: AgentAction::Ignore,
                message_count: 1,
                active: true,
                thread_id: None,
                last_activity: now,
                retry_attempts: 0,
            },
        };
        self.sessions.insert(String::from_str(user_id), next);
    }

    /// Whether `user_id` has a session that has been idle for longer than the
    /// session timeout at time `now`.
    pub fn is_expired(&self, user_id: &str, now: i64) -> (b: bool)
        ensures
            b == match session_of(self@, user_id@) {
                Some(s) => s.is_expired(now),
                None => false,
            },
    {
        match self.sessions.get(user_id) {
            Some(s) => s.is_expired(now),
            None => false,
        }
    }

    /// Drops the sessions that have been idle for longer than the session
    /// timeout at time `now`, and returns how many those were.
    pub fn evict_expired(&mut self, now: i64) -> (evicted: usize)
        ensures
            final(self)@ == kept(old(self)@, now),
            old(self)@.dom().finite(),
            final(self)@.dom().finite(),
            evicted == old(self)@.dom().len() - final(self)@.dom().len(),
    {
        let before: usize = self.sessions.len();
        let users: Vec<String> = self.sessions.keys();
        let mut i: usize = 0;
        assert(self@ =~= kept_of(old(self)@, users@.take(0), now));
        while i < users.len()
            invariant
                i <= users.len(),
                distinct(users@),
                forall|k: Seq<char>| has_key(users@, k) <==> old(self)@.contains_key(k),
                self@ == kept_of(old(self)@, users@.take(i as int), now),
            decreases users.len() - i,
        {
            let user: &str = users[i].as_str();
            let ghost done = users@.take(i as int);
            let ghost next = users@.take(i + 1);
            proof {
                assert(users@[i as int]@ == user@);
                assert(has_key(users@, user@));
                assert forall|k: Seq<char>| has_key(next, k) <==> (has_key(done, k) || k
                    == user@) by {
                    if has_key(done, k) {
                        let j = index_of(done, k);
                        assert(next[j]@ == k);
                    }
                    if k == user@ {
                        assert(next[i as int]@ == k);
                    }
                    if has_key(next, k) {
                        let j = index_of(next, k);
                        if j < i {
                            assert(done[j]@ == k);
                        }
                    }
                }
                if has_key(done, user@) {
                    let j = index_of(done, user@);
                    assert(users@[j]@ == users@[i as int]@);
                }
            }
            let idle: bool = match self.sessions.get(user) {
                Some(s) => s.is_expired(now),
                None => false,
            };
            if idle {
                self.sessions.remove(user);
            }
            assert(self@ =~= kept_of(old(self)@, next, now));
            i += 1;
        }
        assert(users@.take(users.len() as int) =~= users@);
        assert(self@ =~= kept(old(self)@, now));
        let after: usize = self.sessions.len();
        proof {
            assert(self@.dom().subset_of(old(self)@.dom()));
            vstd::set_lib::lemma_len_subset(self@.dom(), old(self)@.dom());
        }
        before - after
    }

    /// The number of users with a session.
    pub fn len(&self) -> (n: usize)
        ensures
            self@.dom().finite(),
            n == self@.dom().len(),
    {
        self.sessions.len()
    }
}

} // verus!
