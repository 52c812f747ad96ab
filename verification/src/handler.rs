//! The orchestrator: intake, the processing loop and the retry policy.

use crate::clock::unix_now;
use crate::constants::{
    CYCLE_SLEEP_MILLIS, DEFAULT_RATE_LIMIT_MAX, DEFAULT_RATE_LIMIT_WINDOW, SWEEP_INTERVAL,
};
use crate::db::model::{page, position_of};
use crate::db::models::{
    conversations_view, found_view, messages_view, Conversation, StoredMessage,
};
use crate::db::queries::ConversationStore;
use crate::error::{ErrorKind, ErrorView, ServiceError};
use crate::handlers::conversation::{cap, capped, floored, has_more_messages, offset_of, page_offset};
use crate::models::message::{Message, MessageView};
use crate::models::{ConversationState, MAX_RETRY_ATTEMPTS};
use crate::processing::{Action, ActionView, Event, Policy, Processing, ProcessingView, Stage};
use crate::queue::{MessageQueue, QueueModel};
use crate::rate_limit::{AdmissionGate, GateModel};
use crate::sessions::{kept, recorded, session_of, SessionMap};
use vstd::prelude::*;

verus! {

/// Figures on what the handler has done since it started.
#[derive(Debug, Clone, Copy, PartialEq, Eq, Structural)]
pub struct HandlerStats {
    /// Users with a tracked session.
    pub active_conversations: usize,
    /// Messages that were processed to the end.
    pub messages_processed: u64,
    /// Messages whose processing ended in an error.
    pub error_count: u64,
    /// Seconds since the handler started.
    pub uptime_seconds: i64,
}

/// What the handler is configured with.
#[derive(Debug, Clone, Copy, PartialEq, Eq, Structural)]
pub struct HandlerSettings {
    /// Capacity of the message queue.
    pub queue_size: usize,
    /// Length of an admission window in seconds.
    pub rate_limit_window: i64,
    /// Submissions that one user may make in one window.
    pub rate_limit_max: u32,
    /// How many times a failed message is put back on the queue.
    pub max_retries: u32,
    /// Whether failures are notified.
    pub notify_failures: bool,
}

/// What one cycle of the processing loop is to do.
#[derive(Debug)]
pub struct Cycle {
    /// Whether the sweep for expired conversations is due.
    pub sweep_due: bool,
    /// The message that was taken from the queue, if any, and the first
    /// action of its processing.
    pub work: Option<(Processing, Action)>,
    /// How long to rest before the next cycle.
    pub sleep_millis: u64,
}

/// Why a request was turned away.
#[derive(Debug)]
pub enum Rejection {
    /// No route leads to what was asked for.
    NotFound,
    /// The route does not take the request's method.
    MethodNotAllowed,
    /// Handling the request ended in an error.
    Service(ServiceError),
    /// Anything else.
    Other,
}

/// The body that answers a request which was turned away.
#[derive(Debug)]
pub struct ErrorReply {
    pub success: bool,
    pub error: String,
    /// Unix seconds at which the answer was made.
    pub timestamp: i64,
}

/// The body that answers a message which was processed.
#[derive(Debug)]
pub struct SubmissionReply {
    pub success: bool,
    pub response: String,
    pub message_id: u128,
    /// Unix seconds at which the answer was made.
    pub timestamp: i64,
}

impl Rejection {
    /// The HTTP status that answers the request.
    pub open spec fn code(self) -> u16 {
        match self {
            Rejection::NotFound => 404,
            Rejection::MethodNotAllowed => 405,
            Rejection::Service(e) => e.kind().code(),
            Rejection::Other => 500,
        }
    }

    /// The words that the caller is told. An error that is neither the
    /// caller's fault nor a missing record is not spelled out.
    pub open spec fn text(self) -> Seq<char> {
        match self {
            Rejection::NotFound => "Not Found"@,
            Rejection::MethodNotAllowed => "Method Not Allowed"@,
            Rejection::Service(e) => match e.kind() {
                ErrorKind::RateLimitExceeded => "Rate limit exceeded"@,
                ErrorKind::InvalidMessage => "Invalid message format"@,
                ErrorKind::NotFound => "Not Found"@,
                _ => "Internal server error"@,
            },
            Rejection::Other => "Internal Server Error"@,
        }
    }
}

/// `n` as an `i64`, as far as an `i64` can say.
pub fn count_as_i64(n: usize) -> (r: i64)
    ensures
        r == clamp_i64(n as int),
{
    if (n as u64) > (i64::MAX as u64) {
        i64::MAX
    } else {
        n as i64
    }
}

/// The number that follows `n`, or `n` itself at the end of the range.
pub open spec fn next_count(n: u64) -> u64 {
    if n == u64::MAX {
        n
    } else {
        (n + 1) as u64
    }
}

/// The number that follows `n`, or `n` itself at the end of the range.
pub fn counted(n: u64) -> (r: u64)
    ensures
        r == next_count(n),
{
    if n < u64::MAX {
        n + 1
    } else {
        n
    }
}

/// `x` brought into the range of `i64`.
pub open spec fn clamp_i64(x: int) -> i64 {
    if x > i64::MAX {
        i64::MAX
    } else if x < i64::MIN {
        i64::MIN
    } else {
        x as i64
    }
}

/// What a [`MessageHandler`] is, mathematically.
pub struct HandlerModel {
    pub queue: QueueModel,
    pub gate: GateModel,
    pub sessions: Map<Seq<char>, ConversationState>,
    pub max_retries: u32,
    pub notify_failures: bool,
    /// The reserved identity of the completion service.
    pub system_user_id: String,
    pub started_at: i64,
    pub last_sweep: i64,
    pub messages_processed: u64,
    pub error_count: u64,
}

impl HandlerModel {
    /// The handler as it starts at time `now`, with `system_user_id` as the
    /// reserved identity of the completion service.
    pub open spec fn initial(settings: HandlerSettings, system_user_id: String, now: i64)
        -> HandlerModel {
        HandlerModel {
            queue: QueueModel::empty(settings.queue_size as nat),
            gate: GateModel::fresh(settings.rate_limit_window, settings.rate_limit_max),
            sessions: Map::empty(),
            max_retries: settings.max_retries,
            notify_failures: settings.notify_failures,
            system_user_id,
            started_at: now,
            last_sweep: now,
            messages_processed: 0,
            error_count: 0,
        }
    }

    /// Why the message `m` is not fit for processing at time `now`, if it is
    /// not: it is unfit in itself, or its sender has submitted too much.
    pub open spec fn objection(self, m: MessageView, now: i64) -> Option<ErrorView> {
        if !m.valid() {
            Some(ErrorView { kind: ErrorKind::InvalidMessage, detail: m.complaint() })
        } else if !self.gate.admits(m.user_id, now) {
            Some(ErrorView { kind: ErrorKind::RateLimitExceeded, detail: m.user_id })
        } else {
            None
        }
    }

    /// Why a submission at time `now` is turned away, if it is: an unfit
    /// message before all else, then the sender's rate, then a full queue.
    pub open spec fn refusal(self, m: MessageView, now: i64) -> Option<ErrorView> {
        if self.objection(m, now) is Some {
            self.objection(m, now)
        } else if self.queue.is_full() {
            Some(ErrorView { kind: ErrorKind::QueueFull, detail: self.queue.full_text() })
        } else {
            None
        }
    }

    /// The handler after it has looked at the message `m` at time `now`: a
    /// fit message is counted against its sender's rate, an unfit one leaves
    /// no trace.
    pub open spec fn after_look(self, m: MessageView, now: i64) -> HandlerModel {
        if m.valid() {
            HandlerModel { gate: self.gate.submit(m.user_id, now), ..self }
        } else {
            self
        }
    }

    /// How the processing of the message `m` starts at time `now`: the
    /// handler, the state of the processing and the first action. A message
    /// that is fit starts with the search for its sender's conversation. One
    /// that is not is finished at once with the action `Fail` and counts as
    /// an error.
    pub open spec fn begin(self, m: MessageView, now: i64) -> (
        HandlerModel,
        ProcessingView,
        ActionView,
    ) {
        match self.objection(m, now) {
            None => (
                self.after_look(m, now),
                ProcessingView::start(m),
                ProcessingView::first_action(m),
            ),
            Some(error) => (
                HandlerModel {
                    error_count: next_count(self.error_count),
                    ..self.after_look(m, now)
                },
                ProcessingView::start(m).at(Stage::Finished),
                ActionView::Fail { error },
            ),
        }
    }

    /// The handler after a submission at time `now`. An unfit message leaves
    /// no trace; a fit one is counted against its sender's rate and, where
    /// the rate and the queue allow it, joins the queue at the tail.
    pub open spec fn after_intake(self, m: Message, now: i64) -> HandlerModel {
        if self.objection(m@, now) is None {
            HandlerModel { queue: self.queue.enqueue(m), ..self.after_look(m@, now) }
        } else {
            self.after_look(m@, now)
        }
    }

    /// Whether the queue holds no more messages than its limit allows. This
    /// holds of every handler: the limit of its queue never changes.
    pub open spec fn within_capacity(self) -> bool {
        self.queue.items.len() <= self.queue.max_size
    }

    /// What the decisions on a message rest on at time `now`.
    pub open spec fn policy(self, now: i64) -> Policy {
        Policy {
            max_retries: self.max_retries,
            queue_has_room: !self.queue.is_full(),
            notify_failures: self.notify_failures,
            system_user_id: self.system_user_id,
            now,
        }
    }

    /// Whether the sweep for expired conversations is due at time `now`: the
    /// last one lies [`SWEEP_INTERVAL`] seconds back or more.
    pub open spec fn sweep_due(self, now: i64) -> bool {
        now - self.last_sweep >= SWEEP_INTERVAL
    }

    /// The figures at time `now`.
    pub open spec fn stats(self, now: i64) -> HandlerStats {
        HandlerStats {
            active_conversations: self.sessions.dom().len() as usize,
            messages_processed: self.messages_processed,
            error_count: self.error_count,
            uptime_seconds: clamp_i64(now - self.started_at),
        }
    }
}

/// Takes messages in, hands them out for processing one by one, and decides
/// at each step of the processing what is to be done next.
pub struct MessageHandler {
    queue: MessageQueue,
    gate: AdmissionGate,
    sessions: SessionMap,
    max_retries: u32,
    notify_failures: bool,
    system_user_id: String,
    started_at: i64,
    last_sweep: i64,
    messages_processed: u64,
    error_count: u64,
}

impl View for MessageHandler {
    type V = HandlerModel;

    closed spec fn view(&self) -> HandlerModel {
        HandlerModel {
            queue: self.queue@,
            gate: self.gate@,
            sessions: self.sessions@,
            max_retries: self.max_retries,
            notify_failures: self.notify_failures,
            system_user_id: self.system_user_id,
            started_at: self.started_at,
            last_sweep: self.last_sweep,
            messages_processed: self.messages_processed,
            error_count: self.error_count,
        }
    }
}

impl HandlerSettings {
    /// The settings that a handler has unless told otherwise, for a queue of
    /// `queue_size` messages.
    pub open spec fn spec_defaults(queue_size: usize) -> HandlerSettings {
        HandlerSettings {
            queue_size,
            rate_limit_window: DEFAULT_RATE_LIMIT_WINDOW,
            rate_limit_max: DEFAULT_RATE_LIMIT_MAX,
            max_retries: MAX_RETRY_ATTEMPTS,
            notify_failures: false,
        }
    }

    /// The settings that a handler has unless told otherwise, for a queue of
    /// `queue_size` messages.
    #[verifier::when_used_as_spec(spec_defaults)]
    pub fn defaults(queue_size: usize) -> (s: Self)
        ensures
            s == Self::spec_defaults(queue_size),
    {
        HandlerSettings {
            queue_size,
            rate_limit_window: DEFAULT_RATE_LIMIT_WINDOW,
            rate_limit_max: DEFAULT_RATE_LIMIT_MAX,
            max_retries: MAX_RETRY_ATTEMPTS,
            notify_failures: false,
        }
    }
}

impl MessageHandler {
    #[verifier::type_invariant]
    spec fn well_formed(&self) -> bool {
        self@.within_capacity()
    }

    /// Does nothing when run; to the verifier it shows that the queue holds
    /// no more messages than its limit allows, as it does in every handler.
    pub fn capacity(&self)
        ensures
            self@.within_capacity(),
    {
        proof {
            use_type_invariant(self);
        }
    }

    /// Takes the handler out of its place and leaves an idle one there, so
    /// that its parts can be worked on one by one before it is put back.
    fn take(&mut self) -> (taken: MessageHandler)
        ensures
            taken == *old(self),
    {
        let mut taken: MessageHandler = MessageHandler::with_settings(
            HandlerSettings::defaults(0),
            String::new(),
            0,
        );
        core::mem::swap(self, &mut taken);
        taken
    }

    /// A handler with the default settings and a queue of `queue_size`
    /// messages, which starts now by the wall clock. `system_user_id` is the
    /// reserved identity of the completion service: its answers are stored
    /// under it, and stored messages of it are the assistant's turns.
    pub fn new(queue_size: usize, system_user_id: String) -> (h: Self)
        ensures
            h@ == HandlerModel::initial(
                HandlerSettings::defaults(queue_size),
                system_user_id,
                h@.started_at,
            ),
    {
        let now: i64 = unix_now();
        MessageHandler::with_settings(HandlerSettings::defaults(queue_size), system_user_id, now)
    }

    /// A handler with the given settings and the reserved identity
    /// `system_user_id` that starts at time `now`.
    pub fn with_settings(settings: HandlerSettings, system_user_id: String, now: i64) -> (h: Self)
        ensures
            h@ == HandlerModel::initial(settings, system_user_id, now),
    {
        MessageHandler {
            queue: MessageQueue::new(settings.queue_size),
            gate: AdmissionGate::new(settings.rate_limit_window, settings.rate_limit_max),
            sessions: SessionMap::new(),
            max_retries: settings.max_retries,
            notify_failures: settings.notify_failures,
            system_user_id,
            started_at: now,
            last_sweep: now,
            messages_processed: 0,
            error_count: 0,
        }
    }

    /// Takes in a submission at time `now`: the message is checked, counted
    /// against its sender's rate and put on the queue. Fails with
    /// `InvalidMessage`, `RateLimitExceeded` or `QueueFull`, in that order of
    /// precedence.
    pub fn handle_message(&mut self, message: Message, now: i64) -> (r: Result<(), ServiceError>)
        ensures
            final(self)@ == old(self)@.after_intake(message, now),
            match r {
                Ok(_) => old(self)@.refusal(message@, now) is None,
                Err(e) => old(self)@.refusal(message@, now) == Some(e@),
            },
    {
        proof {
            use_type_invariant(&*self);
        }
        match message.validate() {
            Err(e) => {
                return Err(e);
            },
            Ok(_) => {},
        }
        let taken: MessageHandler = self.take();
        let mut queue: MessageQueue = taken.queue;
        let mut gate: AdmissionGate = taken.gate;
        let r: Result<(), ServiceError> = match gate.submit(message.user_id.as_str(), now) {
            Err(e) => Err(e),
            Ok(_) => queue.push(message),
        };
        *self = MessageHandler { queue, gate, ..taken };
        r
    }

    /// Starts the processing of a message that was submitted at time `now`
    /// for an immediate answer: the message is checked and counted against
    /// its sender's rate. A message that passes starts with the search for
    /// the user's conversation. One that does not is finished at once, with
    /// the action `Fail`, and counts as an error.
    pub fn process_message(&mut self, message: Message, now: i64) -> (r: (Processing, Action))
        ensures
            (final(self)@, r.0@, r.1@) == old(self)@.begin(message@, now),
    {
        proof {
            use_type_invariant(&*self);
        }
        let taken: MessageHandler = self.take();
        let mut gate: AdmissionGate = taken.gate;
        let checked: Result<(), ServiceError> = match message.validate() {
            Err(e) => Err(e),
            Ok(_) => gate.submit(message.user_id.as_str(), now),
        };
        let (error_count, r): (u64, (Processing, Action)) = match checked {
            Ok(_) => (taken.error_count, Processing::start(message)),
            Err(error) => (
                counted(taken.error_count),
                (
                    Processing {
                        message,
                        stage: Stage::Finished,
                        conversation_id: None,
                        inbound_id: None,
                        response: None,
                        failure: None,
                    },
                    Action::Fail { error },
                ),
            ),
        };
        *self = MessageHandler { gate, error_count, ..taken };
        r
    }

    /// One cycle of the processing loop at time `now`: says whether the sweep
    /// for expired conversations is due, takes at most one message from the
    /// queue and starts its processing, and says how long to rest. The sweep
    /// is due when [`SWEEP_INTERVAL`] seconds or more have passed since the
    /// last one, however late the cycle comes.
    pub fn next_cycle(&mut self, now: i64) -> (c: Cycle)
        ensures
            c.sweep_due == old(self)@.sweep_due(now),
            c.sleep_millis == CYCLE_SLEEP_MILLIS,
            final(self)@ == (HandlerModel {
                queue: old(self)@.queue.dequeue(),
                last_sweep: if c.sweep_due {
                    now
                } else {
                    old(self)@.last_sweep
                },
                ..old(self)@
            }),
            match c.work {
                Some((state, action)) => {
                    &&& old(self)@.queue.head() matches Some(m)
                    &&& state@ == ProcessingView::start(m@)
                    &&& action@ == ProcessingView::first_action(m@)
                },
                None => old(self)@.queue.head() is None,
            },
    {
        proof {
            use_type_invariant(&*self);
        }
        let taken: MessageHandler = self.take();
        let mut queue: MessageQueue = taken.queue;
        let sweep_due: bool = (now as i128) - (taken.last_sweep as i128) >= (SWEEP_INTERVAL
            as i128);
        let work: Option<(Processing, Action)> = match queue.pop() {
            Some(message) => Some(Processing::start(message)),
            None => None,
        };
        let last_sweep: i64 = if sweep_due {
            now
        } else {
            taken.last_sweep
        };
        *self = MessageHandler { queue, last_sweep, ..taken };
        Cycle { sweep_due, work, sleep_millis: CYCLE_SLEEP_MILLIS }
    }

    /// Takes what the last action for a message ended in and says what is to
    /// be done next, at time `now`. The handler carries out what concerns
    /// itself: a message that is to be tried again is put back on the queue, a
    /// message that was processed to the end is counted and recorded in its
    /// sender's session, and a message that ended in an error is counted as
    /// one.
    pub fn advance(&mut self, state: Processing, event: Event, now: i64) -> (r: (
        Processing,
        Action,
    ))
        ensures
            (r.0@, r.1@) == state@.step(event, old(self)@.policy(now)),
            match r.1 {
                Action::Requeue { message } => {
                    &&& final(self)@.queue.max_size == old(self)@.queue.max_size
                    &&& final(self)@.queue.items.len() == old(self)@.queue.items.len() + 1
                    &&& final(self)@.queue.items.drop_last() == old(self)@.queue.items
                    &&& final(self)@.queue.items.last()@ == message@
                    &&& final(self)@ == (HandlerModel {
                        queue: final(self)@.queue,
                        ..old(self)@
                    })
                },
                Action::Respond { response } => final(self)@ == (HandlerModel {
                    sessions: recorded(
                        old(self)@.sessions,
                        state@.message.user_id,
                        r.0.message.platform,
                        now,
                    ),
                    messages_processed: next_count(old(self)@.messages_processed),
                    ..old(self)@
                }),
                Action::Fail { error } => final(self)@ == (HandlerModel {
                    error_count: next_count(old(self)@.error_count),
                    ..old(self)@
                }),
                _ => final(self)@ == old(self)@,
            },
    {
        proof {
            use_type_invariant(&*self);
        }
        let taken: MessageHandler = self.take();
        let mut queue: MessageQueue = taken.queue;
        let mut sessions: SessionMap = taken.sessions;
        let mut messages_processed: u64 = taken.messages_processed;
        let mut error_count: u64 = taken.error_count;
        let ghost pending = queue@.items;
        let policy = Policy {
            max_retries: taken.max_retries,
            queue_has_room: queue.len() < queue.max_size(),
            notify_failures: taken.notify_failures,
            system_user_id: taken.system_user_id.clone(),
            now,
        };
        let (next, action) = state.advance(event, &policy);
        match &action {
            Action::Requeue { message } => {
                let pushed = queue.push(message.duplicate());
                assert(pushed is Ok);
                assert(queue@.items.drop_last() =~= pending);
            },
            Action::Respond { response } => {
                sessions.record_message(next.message.user_id.as_str(), &next.message.platform, now);
                messages_processed = counted(messages_processed);
            },
            Action::Fail { error } => {
                error_count = counted(error_count);
            },
            _ => {},
        }
        *self = MessageHandler { queue, sessions, messages_processed, error_count, ..taken };
        (next, action)
    }

    /// The figures now, by the wall clock.
    pub fn get_stats(&self) -> (s: HandlerStats)
        ensures
            s.active_conversations == self@.sessions.dom().len(),
            s.messages_processed == self@.messages_processed,
            s.error_count == self@.error_count,
    {
        self.stats_at(unix_now())
    }

    /// The figures at time `now`.
    pub fn stats_at(&self, now: i64) -> (s: HandlerStats)
        ensures
            s == self@.stats(now),
            s.active_conversations == self@.sessions.dom().len(),
    {
        let d: i128 = (now as i128) - (self.started_at as i128);
        let uptime_seconds: i64 = if d > i64::MAX as i128 {
            i64::MAX
        } else if d < i64::MIN as i128 {
            i64::MIN
        } else {
            d as i64
        };
        HandlerStats {
            active_conversations: self.sessions.len(),
            messages_processed: self.messages_processed,
            error_count: self.error_count,
            uptime_seconds,
        }
    }

    /// The body that answers a message with the identifier `message_id` whose
    /// processing brought `response`, at time `now`.
    pub fn submission_reply(message_id: u128, response: String, now: i64) -> (r: SubmissionReply)
        ensures
            r == (SubmissionReply { success: true, response, message_id, timestamp: now }),
    {
        SubmissionReply { success: true, response, message_id, timestamp: now }
    }

    /// The status and the body that answer a request which was turned away,
    /// at time `now`.
    pub fn handle_rejection(rejection: &Rejection, now: i64) -> (r: (u16, ErrorReply))
        ensures
            r.0 == rejection.code(),
            !r.1.success,
            r.1.error@ == rejection.text(),
            r.1.timestamp == now,
    {
        let (code, text): (u16, &str) = match rejection {
            Rejection::NotFound => (404, "Not Found"),
            Rejection::MethodNotAllowed => (405, "Method Not Allowed"),
            Rejection::Service(e) => match e {
                ServiceError::RateLimitExceeded(_) => (429, "Rate limit exceeded"),
                ServiceError::InvalidMessage(_) => (400, "Invalid message format"),
                ServiceError::NotFound(_) => (404, "Not Found"),
                _ => (500, "Internal server error"),
            },
            Rejection::Other => (500, "Internal Server Error"),
        };
        (code, ErrorReply { success: false, error: String::from_str(text), timestamp: now })
    }

    /// The conversation with the identifier `conversation_id`, if `store`
    /// holds one.
    pub fn get_conversation(store: &ConversationStore, conversation_id: u128) -> (r: Option<
        Conversation,
    >)
        ensures
            found_view(r) == match position_of(store@.conversations, conversation_id) {
                Some(i) => Some(store@.conversations[i]),
                None => None,
            },
            r is Some <==> store@.has_conversation(conversation_id),
    {
        store.get_conversation_by_id(conversation_id)
    }

    /// One page of the conversations of `user_id` in `store`, newest first,
    /// and the number of conversations on all pages together. Pages hold
    /// `page_size` conversations and at most 100; the first page is page 0,
    /// and a page before it counts as the first. Fails with `DatabaseError`
    /// where `page_size` is negative.
    pub fn list_conversations_paginated(
        store: &ConversationStore,
        user_id: &str,
        include_inactive: bool,
        page_size: i64,
        page_number: i64,
    ) -> (r: Result<(Vec<Conversation>, i64), ServiceError>)
        ensures
            match r {
                Ok((conversations, total_count)) => {
                    &&& page_size >= 0
                    &&& conversations_view(conversations@) == page(
                        store@.conversations_of(user_id@, include_inactive),
                        page_offset(page_size, page_number) as int,
                        capped(page_size) as int,
                    )
                    &&& total_count == clamp_i64(
                        store@.conversations_of(user_id@, include_inactive).len() as int,
                    )
                },
                Err(e) => page_size < 0 && e@.kind == ErrorKind::DatabaseError,
            },
    {
        let limit: i64 = cap(page_size);
        let offset: i64 = offset_of(page_size, page_number);
        assert(page_size >= 0 ==> capped(page_size) * floored(page_number) >= 0)
            by (nonlinear_arith)
            requires
                capped(page_size) >= 0 <==> page_size >= 0,
                floored(page_number) >= 0,
        ;
        assert(page_size < 0 ==> capped(page_size) * floored(page_number) <= 0)
            by (nonlinear_arith)
            requires
                capped(page_size) < 0 <==> page_size < 0,
                floored(page_number) >= 0,
        ;
        if limit < 0 {
            return Err(
                ServiceError::DatabaseError(String::from_str("LIMIT and OFFSET must not be negative")),
            );
        }
        match store.list_user_conversations(user_id, include_inactive, limit, offset) {
            Err(e) => Err(e),
            Ok(conversations) => {
                let total: usize = store.get_conversation_count(user_id, include_inactive);
                Ok((conversations, count_as_i64(total)))
            },
        }
    }

    /// Some of the messages of the conversation `conversation_id` in `store`,
    /// newest first, and whether more may follow. At most `limit` messages
    /// are handed out and never more than 100, after the first `offset`; an
    /// offset that is missing or negative passes over none. Fails with
    /// `DatabaseError` where `limit` is negative.
    pub fn get_conversation_messages(
        store: &ConversationStore,
        conversation_id: u128,
        offset: Option<i64>,
        limit: i64,
    ) -> (r: Result<(Vec<StoredMessage>, bool), ServiceError>)
        ensures
            match r {
                Ok((messages, has_more)) => {
                    &&& limit >= 0
                    &&& messages_view(messages@) == page(
                        store@.messages_in(conversation_id),
                        floored(offset.unwrap_or(0)) as int,
                        capped(limit) as int,
                    )
                    &&& has_more == (messages.len() == capped(limit))
                },
                Err(e) => limit < 0 && e@.kind == ErrorKind::DatabaseError,
            },
    {
        let limit: i64 = cap(limit);
        let skip: i64 = match offset {
            Some(n) => if n < 0 {
                0
            } else {
                n
            },
            None => 0,
        };
        match store.get_conversation_messages(conversation_id, Some(skip), limit) {
            Err(e) => Err(e),
            Ok(messages) => {
                let has_more: bool = has_more_messages(messages.len(), limit);
                Ok((messages, has_more))
            },
        }
    }

    /// Drops the tracked sessions that have been idle for longer than the
    /// session timeout at time `now`, and returns how many those were.
    pub fn evict_expired_sessions(&mut self, now: i64) -> (evicted: usize)
        ensures
            final(self)@ == (HandlerModel { sessions: kept(old(self)@.sessions, now), ..old(self)@ }),
            evicted == old(self)@.sessions.dom().len() - final(self)@.sessions.dom().len(),
    {
        proof {
            use_type_invariant(&*self);
        }
        let taken: MessageHandler = self.take();
        let mut sessions: SessionMap = taken.sessions;
        let evicted: usize = sessions.evict_expired(now);
        *self = MessageHandler { sessions, ..taken };
        evicted
    }

    /// The tracked session of `user_id`, if there is one.
    pub fn session(&self, user_id: &str) -> (s: Option<&ConversationState>)
        ensures
            match s {
                Some(state) => session_of(self@.sessions, user_id@) == Some(*state),
                None => session_of(self@.sessions, user_id@) is None,
            },
    {
        self.sessions.get(user_id)
    }

    /// The number of messages that wait in the queue.
    pub fn queue_len(&self) -> (n: usize)
        ensures
            n == self@.queue.items.len(),
    {
        self.queue.len()
    }
}

/// Why the queue of a handler never holds more messages than its limit
/// allows: a handler starts within the limit, and neither a submission nor a
/// cycle of the processing loop takes it beyond.
pub proof fn lemma_queue_bounded(
    settings: HandlerSettings,
    system_user_id: String,
    started: i64,
    h: HandlerModel,
    m: Message,
    now: i64,
)
    requires
        h.within_capacity(),
    ensures
        HandlerModel::initial(settings, system_user_id, started).within_capacity(),
        h.after_intake(m, now).within_capacity(),
        (HandlerModel { queue: h.queue.dequeue(), ..h }).within_capacity(),
{
}

} // verus!
