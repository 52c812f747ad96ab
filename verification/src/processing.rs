//! One message on its way through the pipeline.
//!
//! Processing a message alternates work on the store and the completion
//! service with decisions. The decisions are made here: [`Processing::advance`]
//! takes what the last piece of outside work brought back and says what is to
//! be done next. Whoever drives it carries out each [`Action`] and hands back
//! the [`Event`] that it ended in.

use crate::db::models::{messages_view, Conversation, StoredMessage, StoredMessageView};
use crate::error::{ErrorKind, ErrorView, ServiceError};
use crate::models::message::{opt_view, Message, MessageView};
use crate::prompt::{
    build_prompt, exclude, first_of, keep_first, prompt_text, without, CONTEXT_LIMIT, FETCH_LIMIT,
};
use crate::text::{clone_opt, clone_pairs};
use vstd::prelude::*;

verus! {

/// Where the processing of a message stands: the outside work that is under
/// way.
#[derive(Debug, Clone, Copy, PartialEq, Eq, Structural)]
pub enum Stage {
    /// The store looks for the user's active conversation.
    FindingConversation,
    /// The store creates a conversation.
    CreatingConversation,
    /// The store writes the inbound message.
    SavingInbound,
    /// The store fetches the user's recent messages.
    FetchingContext,
    /// The completion service answers the prompt.
    Completing,
    /// The store writes the completion.
    SavingResponse,
    /// The store marks the message as failed.
    MarkingFailed,
    /// The failure notification is delivered.
    Notifying,
    /// Nothing is left to do.
    Finished,
}

/// What is to be done next for a message.
#[derive(Debug)]
pub enum Action {
    /// Ask the store for the user's active conversation.
    FindActiveConversation { user_id: String },
    /// Have the store create a conversation.
    CreateConversation { user_id: String, platform: String, metadata: Vec<(String, String)> },
    /// Have the store write a message.
    SaveMessage {
        conversation_id: u128,
        user_id: String,
        content: String,
        thread_id: Option<String>,
        platform: String,
        metadata: Vec<(String, String)>,
    },
    /// Ask the store for the user's most recent messages, newest first.
    GetRecentMessages { user_id: String, limit: i64 },
    /// Send the prompt to the completion service.
    Complete { prompt: String },
    /// Have the store mark the message as failed.
    MarkFailed { message_id: u128, retry_count: u32 },
    /// Deliver a failure notification.
    Notify { message_id: u128, user_id: String, reason: String, timestamp: i64 },
    /// Processing is over: the message goes back to the tail of the queue.
    Requeue { message: Message },
    /// Processing is over: hand the completion to the caller.
    Respond { response: String },
    /// Processing is over: report the error to the caller.
    Fail { error: ServiceError },
}

/// What an [`Action`] holds, with every text as a sequence of characters.
pub enum ActionView {
    FindActiveConversation { user_id: Seq<char> },
    CreateConversation {
        user_id: Seq<char>,
        platform: Seq<char>,
        metadata: Seq<(Seq<char>, Seq<char>)>,
    },
    SaveMessage {
        conversation_id: u128,
        user_id: Seq<char>,
        content: Seq<char>,
        thread_id: Option<Seq<char>>,
        platform: Seq<char>,
        metadata: Seq<(Seq<char>, Seq<char>)>,
    },
    GetRecentMessages { user_id: Seq<char>, limit: i64 },
    Complete { prompt: Seq<char> },
    MarkFailed { message_id: u128, retry_count: u32 },
    Notify { message_id: u128, user_id: Seq<char>, reason: Seq<char>, timestamp: i64 },
    Requeue { message: MessageView },
    Respond { response: Seq<char> },
    Fail { error: ErrorView },
}

impl View for Action {
    type V = ActionView;

    open spec fn view(&self) -> ActionView {
        match self {
            Action::FindActiveConversation { user_id } => ActionView::FindActiveConversation {
                user_id: user_id@,
            },
            Action::CreateConversation {
                user_id,
                platform,
                metadata,
            } => ActionView::CreateConversation {
                user_id: user_id@,
                platform: platform@,
                metadata: crate::text::pairs_view(metadata@),
            },
            Action::SaveMessage {
                conversation_id,
                user_id,
                content,
                thread_id,
                platform,
                metadata,
            } => ActionView::SaveMessage {
                conversation_id: *conversation_id,
                user_id: user_id@,
                content: content@,
                thread_id: opt_view(*thread_id),
                platform: platform@,
                metadata: crate::text::pairs_view(metadata@),
            },
            Action::GetRecentMessages { user_id, limit } => ActionView::GetRecentMessages {
                user_id: user_id@,
                limit: *limit,
            },
            Action::Complete { prompt } => ActionView::Complete { prompt: prompt@ },
            Action::MarkFailed { message_id, retry_count } => ActionView::MarkFailed {
                message_id: *message_id,
                retry_count: *retry_count,
            },
            Action::Notify { message_id, user_id, reason, timestamp } => ActionView::Notify {
                message_id: *message_id,
                user_id: user_id@,
                reason: reason@,
                timestamp: *timestamp,
            },
            Action::Requeue { message } => ActionView::Requeue { message: message@ },
            Action::Respond { response } => ActionView::Respond { response: response@ },
            Action::Fail { error } => ActionView::Fail { error: error@ },
        }
    }
}

/// What a piece of outside work ended in.
#[derive(Debug)]
pub enum Event {
    /// The store's answer to `FindActiveConversation`.
    ActiveConversation(Option<Conversation>),
    /// The conversation that the store created.
    ConversationCreated(Conversation),
    /// The message as the store wrote it.
    MessageSaved(StoredMessage),
    /// The user's most recent messages, newest first.
    RecentMessages(Vec<StoredMessage>),
    /// The text that the completion service returned.
    Completion(String),
    /// The work was carried out and has nothing to hand back.
    Done,
    /// The work failed.
    Failed(ServiceError),
}

/// What the decisions depend on besides the message and the event.
#[derive(Debug, Clone)]
pub struct Policy {
    /// How many times a failed message is put back on the queue.
    pub max_retries: u32,
    /// Whether the queue can take another message.
    pub queue_has_room: bool,
    /// Whether failures are notified.
    pub notify_failures: bool,
    /// The reserved identity of the completion service: its answers are
    /// stored under it, and stored messages of it are the assistant's turns.
    pub system_user_id: String,
    /// The current time in Unix seconds.
    pub now: i64,
}

/// A message and how far its processing has come.
#[derive(Debug)]
pub struct Processing {
    pub message: Message,
    pub stage: Stage,
    /// The conversation that the message was resolved to.
    pub conversation_id: Option<u128>,
    /// The identifier under which the inbound message was stored.
    pub inbound_id: Option<u128>,
    /// The completion, once it has come.
    pub response: Option<String>,
    /// The error that ended the last attempt, while the failure is escalated.
    pub failure: Option<ServiceError>,
}

/// What a [`Processing`] holds, with every text as a sequence of characters.
pub struct ProcessingView {
    pub message: MessageView,
    pub stage: Stage,
    pub conversation_id: Option<u128>,
    pub inbound_id: Option<u128>,
    pub response: Option<Seq<char>>,
    pub failure: Option<ErrorView>,
}

impl View for Processing {
    type V = ProcessingView;

    open spec fn view(&self) -> ProcessingView {
        ProcessingView {
            message: self.message@,
            stage: self.stage,
            conversation_id: self.conversation_id,
            inbound_id: self.inbound_id,
            response: opt_view(self.response),
            failure: match self.failure {
                Some(e) => Some(e@),
                None => None,
            },
        }
    }
}

/// What an unexpected event is answered with.
pub open spec fn out_of_turn() -> ErrorView {
    ErrorView { kind: ErrorKind::Internal, detail: "unexpected event"@ }
}

impl ProcessingView {
    /// The state in which a message starts.
    pub open spec fn start(message: MessageView) -> ProcessingView {
        ProcessingView {
            message,
            stage: Stage::FindingConversation,
            conversation_id: None,
            inbound_id: None,
            response: None,
            failure: None,
        }
    }

    /// The action that starts the processing of a message.
    pub open spec fn first_action(message: MessageView) -> ActionView {
        ActionView::FindActiveConversation { user_id: message.user_id }
    }

    /// The same state at another stage.
    pub open spec fn at(self, stage: Stage) -> ProcessingView {
        ProcessingView { stage, ..self }
    }

    /// The action that writes the inbound message under `conversation_id`.
    pub open spec fn save_inbound(self, conversation_id: u128) -> ActionView {
        ActionView::SaveMessage {
            conversation_id,
            user_id: self.message.user_id,
            content: self.message.content,
            thread_id: self.message.thread_id,
            platform: self.message.platform,
            metadata: self.message.metadata,
        }
    }

    /// The action that writes the completion `text` under `conversation_id`,
    /// in the name of the completion service, which is `system`, and with the
    /// inbound message's platform, metadata and thread.
    pub open spec fn save_response(
        self,
        conversation_id: u128,
        text: Seq<char>,
        system: Seq<char>,
    ) -> ActionView {
        ActionView::SaveMessage {
            conversation_id,
            user_id: system,
            content: text,
            thread_id: self.message.thread_id,
            platform: self.message.platform,
            metadata: self.message.metadata,
        }
    }

    /// The earlier messages that go into the prompt: of what the store handed
    /// out, newest first, the first [`CONTEXT_LIMIT`] that are not the inbound
    /// message that was just written.
    pub open spec fn context(self, recent: Seq<StoredMessageView>) -> Seq<StoredMessageView> {
        first_of(
            match self.inbound_id {
                Some(id) => without(recent, id),
                None => recent,
            },
            CONTEXT_LIMIT as int,
        )
    }

    /// The identifier under which the store holds the message: the one under
    /// which the inbound message was written, once it is, and until then the
    /// one that the message came with.
    pub open spec fn stored_id(self) -> u128 {
        match self.inbound_id {
            Some(id) => id,
            None => self.message.id,
        }
    }

    /// Whether outside work on the exchange itself is under way, so that a
    /// failure of it falls under the retry policy.
    pub open spec fn in_exchange(self) -> bool {
        self.stage == Stage::FindingConversation || self.stage == Stage::CreatingConversation
            || self.stage == Stage::SavingInbound || self.stage == Stage::FetchingContext
            || self.stage == Stage::Completing || self.stage == Stage::SavingResponse
    }

    /// Whether a failed attempt is followed by another one.
    pub open spec fn retries(self, policy: Policy) -> bool {
        self.message.retry_count < policy.max_retries && policy.queue_has_room
    }

    /// What follows when the outside work failed with `error`. A failure
    /// that may pass puts the message back on the queue with one more retry
    /// counted, as long as retries are left and the queue has room; without
    /// either, the message is marked as failed. Any other failure ends the
    /// processing at once.
    pub open spec fn on_failure(self, error: ServiceError, policy: Policy) -> (
        ProcessingView,
        ActionView,
    ) {
        if !error.kind().transient() {
            (self.at(Stage::Finished), ActionView::Fail { error: error@ })
        } else if self.retries(policy) {
            (
                ProcessingView {
                    message: self.message.retried(),
                    stage: Stage::Finished,
                    ..self
                },
                ActionView::Requeue { message: self.message.retried() },
            )
        } else {
            (
                ProcessingView {
                    stage: Stage::MarkingFailed,
                    failure: Some(error@),
                    ..self
                },
                ActionView::MarkFailed {
                    message_id: self.stored_id(),
                    retry_count: self.message.retry_count,
                },
            )
        }
    }

    /// The error that is reported when the escalation is over.
    pub open spec fn final_error(self) -> ErrorView {
        match self.failure {
            Some(e) => e,
            None => out_of_turn(),
        }
    }

    /// What follows once the message is marked as failed, whether or not the
    /// marking itself went through.
    pub open spec fn after_marking(self, policy: Policy) -> (ProcessingView, ActionView) {
        if policy.notify_failures {
            (
                self.at(Stage::Notifying),
                ActionView::Notify {
                    message_id: self.message.id,
                    user_id: self.message.user_id,
                    reason: self.final_error().text(),
                    timestamp: policy.now,
                },
            )
        } else {
            (self.at(Stage::Finished), ActionView::Fail { error: self.final_error() })
        }
    }

    /// What follows an event that the stage does not expect.
    pub open spec fn reject(self) -> (ProcessingView, ActionView) {
        (self.at(Stage::Finished), ActionView::Fail { error: out_of_turn() })
    }

    /// The next state and the next action, given what the last action ended
    /// in.
    pub open spec fn step(self, event: Event, policy: Policy) -> (ProcessingView, ActionView) {
        match (self.stage, event) {
            (Stage::FindingConversation, Event::ActiveConversation(Some(c))) => (
                ProcessingView {
                    stage: Stage::SavingInbound,
                    conversation_id: Some(c.id),
                    ..self
                },
                self.save_inbound(c.id),
            ),
            (Stage::FindingConversation, Event::ActiveConversation(None)) => (
                self.at(Stage::CreatingConversation),
                ActionView::CreateConversation {
                    user_id: self.message.user_id,
                    platform: self.message.platform,
                    metadata: self.message.metadata,
                },
            ),
            (Stage::CreatingConversation, Event::ConversationCreated(c)) => (
                ProcessingView {
                    stage: Stage::SavingInbound,
                    conversation_id: Some(c.id),
                    ..self
                },
                self.save_inbound(c.id),
            ),
            (Stage::SavingInbound, Event::MessageSaved(m)) => (
                ProcessingView { stage: Stage::FetchingContext, inbound_id: Some(m.id), ..self },
                ActionView::GetRecentMessages {
                    user_id: self.message.user_id,
                    limit: FETCH_LIMIT,
                },
            ),
            (Stage::FetchingContext, Event::RecentMessages(ms)) => (
                self.at(Stage::Completing),
                ActionView::Complete {
                    prompt: prompt_text(
                        self.message.content,
                        self.context(messages_view(ms@)),
                        policy.system_user_id@,
                    ),
                },
            ),
            (Stage::Completing, Event::Completion(text)) => match self.conversation_id {
                Some(id) => (
                    ProcessingView { stage: Stage::SavingResponse, response: Some(text@), ..self },
                    self.save_response(id, text@, policy.system_user_id@),
                ),
                None => self.reject(),
            },
            (Stage::SavingResponse, Event::MessageSaved(_)) => match self.response {
                Some(text) => (self.at(Stage::Finished), ActionView::Respond { response: text }),
                None => self.reject(),
            },
            (Stage::MarkingFailed, Event::Done) => self.after_marking(policy),
            (Stage::MarkingFailed, Event::Failed(_)) => self.after_marking(policy),
            (Stage::Notifying, Event::Done) => (
                self.at(Stage::Finished),
                ActionView::Fail { error: self.final_error() },
            ),
            (Stage::Notifying, Event::Failed(_)) => (
                self.at(Stage::Finished),
                ActionView::Fail { error: self.final_error() },
            ),
            (_, Event::Failed(error)) => if self.in_exchange() {
                self.on_failure(error, policy)
            } else {
                self.reject()
            },
            _ => self.reject(),
        }
    }
}

impl Processing {
    /// Starts the processing of `message`: the first thing to do is to look
    /// for the user's active conversation.
    pub fn start(message: Message) -> (r: (Processing, Action))
        ensures
            r.0@ == ProcessingView::start(message@),
            r.1@ == ProcessingView::first_action(message@),
    {
        let action = Action::FindActiveConversation { user_id: message.user_id.clone() };
        (
            Processing {
                message,
                stage: Stage::FindingConversation,
                conversation_id: None,
                inbound_id: None,
                response: None,
                failure: None,
            },
            action,
        )
    }

    /// Whether nothing is left to do for the message.
    pub fn is_finished(&self) -> (b: bool)
        ensures
            b == (self@.stage == Stage::Finished),
    {
        matches!(self.stage, Stage::Finished)
    }

    fn save_inbound(&self, conversation_id: u128) -> (a: Action)
        ensures
            a@ == self@.save_inbound(conversation_id),
    {
        Action::SaveMessage {
            conversation_id,
            user_id: self.message.user_id.clone(),
            content: self.message.content.clone(),
            thread_id: clone_opt(&self.message.thread_id),
            platform: self.message.platform.clone(),
            metadata: clone_pairs(&self.message.metadata),
        }
    }

    fn reject(self) -> (r: (Processing, Action))
        ensures
            (r.0@, r.1@) == self@.reject(),
    {
        let error = ServiceError::Internal(String::from_str("unexpected event"));
        (Processing { stage: Stage::Finished, ..self }, Action::Fail { error })
    }

    fn in_exchange(&self) -> (b: bool)
        ensures
            b == self@.in_exchange(),
    {
        match self.stage {
            Stage::FindingConversation => true,
            Stage::CreatingConversation => true,
            Stage::SavingInbound => true,
            Stage::FetchingContext => true,
            Stage::Completing => true,
            Stage::SavingResponse => true,
            _ => false,
        }
    }

    fn on_failure(self, error: ServiceError, policy: &Policy) -> (r: (Processing, Action))
        ensures
            (r.0@, r.1@) == self@.on_failure(error, *policy),
    {
        if !error.is_transient() {
            (Processing { stage: Stage::Finished, ..self }, Action::Fail { error })
        } else if self.message.retry_count < policy.max_retries && policy.queue_has_room {
            let mut message: Message = self.message;
            message.retry_count = message.retry_count + 1;
            let again: Message = message.duplicate();
            (
                Processing {
                    message,
                    stage: Stage::Finished,
                    conversation_id: self.conversation_id,
                    inbound_id: self.inbound_id,
                    response: self.response,
                    failure: self.failure,
                },
                Action::Requeue { message: again },
            )
        } else {
            let action = Action::MarkFailed {
                message_id: match self.inbound_id {
                    Some(id) => id,
                    None => self.message.id,
                },
                retry_count: self.message.retry_count,
            };
            (Processing { stage: Stage::MarkingFailed, failure: Some(error), ..self }, action)
        }
    }

    fn final_error(&self) -> (e: ServiceError)
        ensures
            e@ == self@.final_error(),
    {
        match &self.failure {
            Some(e) => e.duplicate(),
            None => ServiceError::Internal(String::from_str("unexpected event")),
        }
    }

    fn after_marking(self, policy: &Policy) -> (r: (Processing, Action))
        ensures
            (r.0@, r.1@) == self@.after_marking(*policy),
    {
        let error: ServiceError = self.final_error();
        if policy.notify_failures {
            let action = Action::Notify {
                message_id: self.message.id,
                user_id: self.message.user_id.clone(),
                reason: error.describe(),
                timestamp: policy.now,
            };
            (Processing { stage: Stage::Notifying, ..self }, action)
        } else {
            (Processing { stage: Stage::Finished, ..self }, Action::Fail { error })
        }
    }

    fn conclude(self) -> (r: (Processing, Action))
        ensures
            r.0@ == self@.at(Stage::Finished),
            r.1@ == (ActionView::Fail { error: self@.final_error() }),
    {
        let error: ServiceError = self.final_error();
        (Processing { stage: Stage::Finished, ..self }, Action::Fail { error })
    }

    /// Takes what the last action ended in and says what is to be done next.
    /// Once the stage is `Finished`, the action that came with it was the
    /// last one.
    pub fn advance(self, event: Event, policy: &Policy) -> (r: (Processing, Action))
        ensures
            (r.0@, r.1@) == self@.step(event, *policy),
    {
        match event {
            Event::ActiveConversation(found) => match self.stage {
                Stage::FindingConversation => match found {
                    Some(c) => {
                        let action: Action = self.save_inbound(c.id);
                        (
                            Processing {
                                stage: Stage::SavingInbound,
                                conversation_id: Some(c.id),
                                ..self
                            },
                            action,
                        )
                    },
                    None => {
                        let action = Action::CreateConversation {
                            user_id: self.message.user_id.clone(),
                            platform: self.message.platform.clone(),
                            metadata: clone_pairs(&self.message.metadata),
                        };
                        (Processing { stage: Stage::CreatingConversation, ..self }, action)
                    },
                },
                _ => self.reject(),
            },
            Event::ConversationCreated(c) => match self.stage {
                Stage::CreatingConversation => {
                    let action: Action = self.save_inbound(c.id);
                    (
                        Processing {
                            stage: Stage::SavingInbound,
                            conversation_id: Some(c.id),
                            ..self
                        },
                        action,
                    )
                },
                _ => self.reject(),
            },
            Event::MessageSaved(m) => match self.stage {
                Stage::SavingInbound => {
                    let action = Action::GetRecentMessages {
                        user_id: self.message.user_id.clone(),
                        limit: FETCH_LIMIT,
                    };
                    (
                        Processing {
                            stage: Stage::FetchingContext,
                            inbound_id: Some(m.id),
                            ..self
                        },
                        action,
                    )
                },
                Stage::SavingResponse => match &self.response {
                    Some(text) => {
                        let action = Action::Respond { response: text.clone() };
                        (Processing { stage: Stage::Finished, ..self }, action)
                    },
                    None => self.reject(),
                },
                _ => self.reject(),
            },
            Event::RecentMessages(recent) => match self.stage {
                Stage::FetchingContext => {
                    let earlier: Vec<StoredMessage> = match self.inbound_id {
                        Some(id) => exclude(recent, id),
                        None => recent,
                    };
                    let context: Vec<StoredMessage> = keep_first(earlier, CONTEXT_LIMIT);
                    let prompt: String = build_prompt(
                        self.message.content.as_str(),
                        &context,
                        policy.system_user_id.as_str(),
                    );
                    (Processing { stage: Stage::Completing, ..self }, Action::Complete { prompt })
                },
                _ => self.reject(),
            },
            Event::Completion(text) => match self.stage {
                Stage::Completing => match self.conversation_id {
                    Some(id) => {
                        let action = Action::SaveMessage {
                            conversation_id: id,
                            user_id: policy.system_user_id.clone(),
                            content: text.clone(),
                            thread_id: clone_opt(&self.message.thread_id),
                            platform: self.message.platform.clone(),
                            metadata: clone_pairs(&self.message.metadata),
                        };
                        (
                            Processing {
                                stage: Stage::SavingResponse,
                                response: Some(text),
                                ..self
                            },
                            action,
                        )
                    },
                    None => self.reject(),
                },
                _ => self.reject(),
            },
            Event::Done => match self.stage {
                Stage::MarkingFailed => self.after_marking(policy),
                Stage::Notifying => self.conclude(),
                _ => self.reject(),
            },
            Event::Failed(error) => match self.stage {
                Stage::MarkingFailed => self.after_marking(policy),
                Stage::Notifying => self.conclude(),
                _ => if self.in_exchange() {
                    self.on_failure(error, policy)
                } else {
                    self.reject()
                },
            },
        }
    }
}

/// `m` after `n` failed attempts that were each followed by another one.
pub open spec fn retried_times(m: MessageView, n: nat) -> MessageView
    decreases n,
{
    if n == 0 {
        m
    } else {
        retried_times(m, (n - 1) as nat).retried()
    }
}

/// Retries only count up: after `n` of them a message that had none has `n`,
/// and is otherwise the same.
pub proof fn lemma_retried_times(m: MessageView, n: nat)
    requires
        m.retry_count == 0,
        n <= u32::MAX,
    ensures
        retried_times(m, n) == (MessageView { retry_count: n as u32, ..m }),
    decreases n,
{
    if n > 0 {
        lemma_retried_times(m, (n - 1) as nat);
    }
}

/// A message that keeps failing for a reason that may pass is put back on the
/// queue exactly `max_retries` times, as long as the queue has room: each of
/// the first `max_retries` failures counts one more retry and queues the
/// message again, and the failure after those marks it as failed with a retry
/// count of `max_retries`.
pub proof fn lemma_retry_cap(p: ProcessingView, error: ServiceError, policy: Policy, k: nat)
    requires
        error.kind().transient(),
        policy.queue_has_room,
        p.message.retry_count == 0,
        k <= policy.max_retries,
    ensures
        k < policy.max_retries ==> (ProcessingView {
            message: retried_times(p.message, k),
            ..p
        }).on_failure(error, policy).1 == (ActionView::Requeue {
            message: retried_times(p.message, k + 1),
        }) && retried_times(p.message, k + 1).retry_count == k + 1,
        k == policy.max_retries ==> (ProcessingView {
            message: retried_times(p.message, k),
            ..p
        }).on_failure(error, policy).1 == (ActionView::MarkFailed {
            message_id: p.stored_id(),
            retry_count: policy.max_retries,
        }),
{
    lemma_retried_times(p.message, k);
    if k < policy.max_retries {
        lemma_retried_times(p.message, k + 1);
    }
}

} // verus!
