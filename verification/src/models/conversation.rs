//! Per-user session state that is tracked in memory.

use crate::models::DEFAULT_TIMEOUT;
use vstd::prelude::*;

verus! {

/// What the agent did last in a session.
#[derive(Debug, Clone, Copy, PartialEq, Eq, Structural)]
pub enum AgentAction {
    Ignore,
    Continue,
    SwapToken,
}

/// The in-memory record of one user's session.
#[derive(Debug, Clone)]
pub struct ConversationState {
    pub platform: String,
    pub last_action: AgentAction,
    pub message_count: u32,
    pub active: bool,
    pub thread_id: Option<String>,
    pub last_activity: i64,
    pub retry_attempts: u32,
}

impl Default for ConversationState {
    fn default() -> (s: Self)
        ensures
            s.platform@ == "discord"@,
            s.last_action == AgentAction::Ignore,
            s.message_count == 0,
            s.active,
            s.thread_id is None,
            s.last_activity == 0,
            s.retry_attempts == 0,
    {
        ConversationState {
            platform: String::from_str("discord"),
            last_action: AgentAction::Ignore,
            message_count: 0,
            active: true,
            thread_id: None,
            last_activity: 0,
            retry_attempts: 0,
        }
    }
}

impl ConversationState {
    /// A fresh, active session on `platform` with every counter at zero.
    pub fn new(platform: String) -> (s: Self)
        ensures
            s.platform == platform,
            s.last_action == AgentAction::Ignore,
            s.message_count == 0,
            s.active,
            s.thread_id is None,
            s.last_activity == 0,
            s.retry_attempts == 0,
    {
        ConversationState {
            platform,
            last_action: AgentAction::Ignore,
            message_count: 0,
            active: true,
            thread_id: None,
            last_activity: 0,
            retry_attempts: 0,
        }
    }

    /// Counts one more processed message. The counter stays at its largest
    /// value once it has reached it.
    pub fn increment_message_count(&mut self)
        ensures
            final(self).message_count == if old(self).message_count == u32::MAX {
                u32::MAX
            } else {
                (old(self).message_count + 1) as u32
            },
            final(self).platform == old(self).platform,
            final(self).last_action == old(self).last_action,
            final(self).active == old(self).active,
            final(self).thread_id == old(self).thread_id,
            final(self).last_activity == old(self).last_activity,
            final(self).retry_attempts == old(self).retry_attempts,
    {
        if self.message_count < u32::MAX {
            self.message_count = self.message_count + 1;
        }
    }

    /// Binds the session to a thread.
    pub fn set_thread_id(&mut self, thread_id: String)
        ensures
            final(self).thread_id == Some(thread_id),
            final(self).platform == old(self).platform,
            final(self).last_action == old(self).last_action,
            final(self).message_count == old(self).message_count,
            final(self).active == old(self).active,
            final(self).last_activity == old(self).last_activity,
            final(self).retry_attempts == old(self).retry_attempts,
    {
        self.thread_id = Some(thread_id);
    }

    /// Records when the session was last active, in Unix seconds.
    pub fn update_last_activity(&mut self, timestamp: i64)
        ensures
            final(self).last_activity == timestamp,
            final(self).platform == old(self).platform,
            final(self).last_action == old(self).last_action,
            final(self).message_count == old(self).message_count,
            final(self).active == old(self).active,
            final(self).thread_id == old(self).thread_id,
            final(self).retry_attempts == old(self).retry_attempts,
    {
        self.last_activity = timestamp;
    }

    /// Counts one more retry and returns the new count. The counter stays at
    /// its largest value once it has reached it.
    pub fn increment_retry(&mut self) -> (n: u32)
        ensures
            n == final(self).retry_attempts,
            n == if old(self).retry_attempts == u32::MAX {
                u32::MAX
            } else {
                (old(self).retry_attempts + 1) as u32
            },
            final(self).platform == old(self).platform,
            final(self).last_action == old(self).last_action,
            final(self).message_count == old(self).message_count,
            final(self).active == old(self).active,
            final(self).thread_id == old(self).thread_id,
            final(self).last_activity == old(self).last_activity,
    {
        if self.retry_attempts < u32::MAX {
            self.retry_attempts = self.retry_attempts + 1;
        }
        self.retry_attempts
    }

    /// Whether more than [`DEFAULT_TIMEOUT`] seconds lie between the last
    /// activity and `current_time`.
    pub open spec fn spec_is_expired(&self, current_time: i64) -> bool {
        current_time - self.last_activity > DEFAULT_TIMEOUT
    }

    /// Whether the session has been idle for longer than the session timeout.
    #[verifier::when_used_as_spec(spec_is_expired)]
    pub fn is_expired(&self, current_time: i64) -> (b: bool)
        ensures
            b == self.spec_is_expired(current_time),
    {
        (current_time as i128) - (self.last_activity as i128) > (DEFAULT_TIMEOUT as i128)
    }
}

impl AgentAction {
    /// Whether the action is `Continue`.
    pub fn should_continue(&self) -> (b: bool)
        ensures
            b == (*self == AgentAction::Continue),
    {
        matches!(self, AgentAction::Continue)
    }

    /// Whether the action is `SwapToken`.
    pub fn should_swap_token(&self) -> (b: bool)
        ensures
            b == (*self == AgentAction::SwapToken),
    {
        matches!(self, AgentAction::SwapToken)
    }
}

} // verus!
