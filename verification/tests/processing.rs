use message_handler::db::{Conversation, ConversationStore, StoredMessage};
use message_handler::models::Message;
use message_handler::processing::{Action, Event, Policy, Processing, Stage};
use message_handler::ServiceError;

fn message(user_id: &str, content: &str) -> Message {
    Message {
        id: uuid::Uuid::new_v4().as_u128(),
        user_id: user_id.to_string(),
        platform: "discord".to_string(),
        content: content.to_string(),
        timestamp: 1_700_000_000,
        priority: "normal".to_string(),
        metadata: vec![("channel".to_string(), "general".to_string())],
        retry_count: 0,
        thread_id: Some("t-1".to_string()),
    }
}

fn policy() -> Policy {
    Policy {
        max_retries: 3,
        queue_has_room: true,
        notify_failures: true,
        system_user_id: "assistant".to_string(),
        now: 1_700_000_100,
    }
}

fn conversation(id: u128, user_id: &str) -> Conversation {
    Conversation {
        id,
        user_id: user_id.to_string(),
        platform: "discord".to_string(),
        started_at: 1_700_000_000,
        ended_at: None,
        is_active: true,
        metadata: Vec::new(),
        created_at: 1_700_000_000,
    }
}

fn stored(id: u128, conversation_id: u128, user_id: &str, content: &str) -> StoredMessage {
    StoredMessage {
        id,
        conversation_id,
        user_id: user_id.to_string(),
        content: content.to_string(),
        thread_id: None,
        platform: "discord".to_string(),
        metadata: Vec::new(),
        created_at: 1_700_000_000,
        failed: false,
        response_length: None,
        processing_time: None,
    }
}

/// Carries out `action` on `store` as a driver of the pipeline would, with a
/// completion service that answers every prompt with `completion`, and keeps
/// the prompts that it was sent.
fn perform(
    store: &mut ConversationStore,
    action: &Action,
    completion: &Result<String, String>,
    prompts: &mut Vec<String>,
    now: i64,
) -> Event {
    match action {
        Action::FindActiveConversation { user_id } => {
            Event::ActiveConversation(store.find_active_conversation(user_id, now))
        }
        Action::CreateConversation { user_id, platform, metadata } => {
            let id = uuid::Uuid::new_v4().as_u128();
            match store.create_conversation_at(id, user_id, platform.clone(), metadata.clone(), now)
            {
                Ok(c) => Event::ConversationCreated(c),
                Err(e) => Event::Failed(e),
            }
        }
        Action::SaveMessage { conversation_id, user_id, content, thread_id, platform, metadata } => {
            let id = uuid::Uuid::new_v4().as_u128();
            match store.save_message_at(
                id,
                *conversation_id,
                user_id,
                content,
                thread_id.as_deref(),
                platform.clone(),
                metadata.clone(),
                now,
            ) {
                Ok(m) => Event::MessageSaved(m),
                Err(e) => Event::Failed(e),
            }
        }
        Action::GetRecentMessages { user_id, limit } => {
            match store.get_recent_messages(user_id, *limit) {
                Ok(ms) => Event::RecentMessages(ms),
                Err(e) => Event::Failed(e),
            }
        }
        Action::Complete { prompt } => {
            prompts.push(prompt.clone());
            match completion {
                Ok(text) => Event::Completion(text.clone()),
                Err(e) => Event::Failed(ServiceError::ProcessingError(e.clone())),
            }
        }
        Action::MarkFailed { message_id, .. } => {
            store.mark_message_failed(*message_id);
            Event::Done
        }
        Action::Notify { .. } => Event::Done,
        Action::Requeue { .. } | Action::Respond { .. } | Action::Fail { .. } => {
            unreachable!("processing is over")
        }
    }
}

fn run(
    store: &mut ConversationStore,
    m: Message,
    completion: &Result<String, String>,
    prompts: &mut Vec<String>,
    now: i64,
) -> (Processing, Action) {
    let (mut state, mut action) = Processing::start(m);
    let policy = Policy { now, ..policy() };
    while !state.is_finished() {
        let event = perform(store, &action, completion, prompts, now);
        let next = state.advance(event, &policy);
        state = next.0;
        action = next.1;
    }
    (state, action)
}

#[test]
fn scenario_first_message_of_a_user() {
    let mut store = ConversationStore::new();
    let mut prompts = Vec::new();
    let m = Message {
        id: uuid::Uuid::new_v4().as_u128(),
        user_id: "u1".to_string(),
        platform: "discord".to_string(),
        content: "hello".to_string(),
        timestamp: 1_700_000_000,
        priority: "normal".to_string(),
        metadata: Vec::new(),
        retry_count: 0,
        thread_id: None,
    };
    let id = m.id;
    let (state, action) =
        run(&mut store, m, &Ok("Hi there!".to_string()), &mut prompts, 1_700_000_000);

    // the completion service was invoked once, with the bare prompt
    assert_eq!(prompts, vec!["Human: hello\n\nAssistant:".to_string()]);

    // a conversation was created
    let c = store.find_active_conversation("u1", 1_700_000_000).expect("conversation");
    assert_eq!(c.user_id, "u1");
    assert_eq!(c.platform, "discord");
    assert!(c.is_active);
    assert_eq!(state.conversation_id, Some(c.id));
    assert_eq!(store.get_conversation_count("u1", true), 1);

    // both sides of the exchange are stored under it, newest first
    let ms = store.get_conversation_messages(c.id, None, 10).unwrap();
    assert_eq!(ms.len(), 2);
    assert_eq!(ms[0].user_id, "assistant");
    assert_eq!(ms[0].content, "Hi there!");
    assert_eq!(ms[0].conversation_id, c.id);
    assert_eq!(ms[1].user_id, "u1");
    assert_eq!(ms[1].content, "hello");
    assert_eq!(ms[1].conversation_id, c.id);
    assert_eq!(state.inbound_id, Some(ms[1].id));

    // the caller gets the completion
    match action {
        Action::Respond { response } => assert_eq!(response, "Hi there!"),
        other => panic!("unexpected: {:?}", other),
    }
    let reply = message_handler::MessageHandler::submission_reply(
        id,
        "Hi there!".to_string(),
        1_700_000_000,
    );
    assert!(reply.success);
    assert_eq!(reply.response, "Hi there!");
    assert_eq!(reply.message_id, id);
    assert_eq!(reply.timestamp, 1_700_000_000);
}

#[test]
fn second_message_sees_the_first_exchange_oldest_first() {
    let mut store = ConversationStore::new();
    let mut prompts = Vec::new();
    run(&mut store, message("u1", "hello"), &Ok("Hi there!".to_string()), &mut prompts, 1000);
    run(&mut store, message("u1", "how are you?"), &Ok("Fine.".to_string()), &mut prompts, 1010);
    assert_eq!(prompts.len(), 2);
    // only the user's own messages are fetched as context; the completion was
    // stored in the name of the service
    assert_eq!(
        prompts[1],
        "Previous conversation:\nHuman: hello\n\nHuman: how are you?\n\nAssistant:"
    );
    // both exchanges went to one conversation
    assert_eq!(store.get_conversation_count("u1", true), 1);
    let c = store.find_active_conversation("u1", 1010).unwrap();
    assert_eq!(store.get_conversation_messages(c.id, None, 10).unwrap().len(), 4);
}

#[test]
fn step_by_step_with_an_existing_conversation() {
    let m = message("u1", "hello");
    let (state, action) = Processing::start(m);
    assert_eq!(state.stage, Stage::FindingConversation);
    match &action {
        Action::FindActiveConversation { user_id } => assert_eq!(user_id, "u1"),
        other => panic!("unexpected: {:?}", other),
    }

    let (state, action) =
        state.advance(Event::ActiveConversation(Some(conversation(77, "u1"))), &policy());
    assert_eq!(state.stage, Stage::SavingInbound);
    assert_eq!(state.conversation_id, Some(77));
    match &action {
        Action::SaveMessage { conversation_id, user_id, content, thread_id, platform, metadata } => {
            assert_eq!(*conversation_id, 77);
            assert_eq!(user_id, "u1");
            assert_eq!(content, "hello");
            assert_eq!(thread_id.as_deref(), Some("t-1"));
            assert_eq!(platform, "discord");
            assert_eq!(metadata, &vec![("channel".to_string(), "general".to_string())]);
        }
        other => panic!("unexpected: {:?}", other),
    }

    let (state, action) =
        state.advance(Event::MessageSaved(stored(500, 77, "u1", "hello")), &policy());
    assert_eq!(state.stage, Stage::FetchingContext);
    assert_eq!(state.inbound_id, Some(500));
    match &action {
        Action::GetRecentMessages { user_id, limit } => {
            assert_eq!(user_id, "u1");
            // one more than the context holds: the inbound message is among them
            assert_eq!(*limit, 6);
        }
        other => panic!("unexpected: {:?}", other),
    }

    // the store answers newest first, and the inbound message is among them
    let recent = vec![
        stored(500, 77, "u1", "hello"),
        stored(499, 77, "assistant", "Nice to meet you."),
        stored(498, 77, "u1", "I am u1"),
    ];
    let (state, action) = state.advance(Event::RecentMessages(recent), &policy());
    assert_eq!(state.stage, Stage::Completing);
    match &action {
        Action::Complete { prompt } => assert_eq!(
            prompt,
            "Previous conversation:\nHuman: I am u1\nAssistant: Nice to meet you.\n\nHuman: hello\n\nAssistant:"
        ),
        other => panic!("unexpected: {:?}", other),
    }

    let (state, action) = state.advance(Event::Completion("Hello again.".to_string()), &policy());
    assert_eq!(state.stage, Stage::SavingResponse);
    assert_eq!(state.response.as_deref(), Some("Hello again."));
    match &action {
        Action::SaveMessage { conversation_id, user_id, content, thread_id, platform, metadata } => {
            assert_eq!(*conversation_id, 77);
            assert_eq!(user_id, "assistant");
            assert_eq!(content, "Hello again.");
            assert_eq!(thread_id.as_deref(), Some("t-1"));
            assert_eq!(platform, "discord");
            assert_eq!(metadata, &vec![("channel".to_string(), "general".to_string())]);
        }
        other => panic!("unexpected: {:?}", other),
    }

    let (state, action) =
        state.advance(Event::MessageSaved(stored(501, 77, "assistant", "Hello again.")), &policy());
    assert!(state.is_finished());
    match action {
        Action::Respond { response } => assert_eq!(response, "Hello again."),
        other => panic!("unexpected: {:?}", other),
    }
}

#[test]
fn conversation_is_created_where_none_is_active() {
    let (state, _) = Processing::start(message("u1", "hello"));
    let (state, action) = state.advance(Event::ActiveConversation(None), &policy());
    assert_eq!(state.stage, Stage::CreatingConversation);
    match &action {
        Action::CreateConversation { user_id, platform, metadata } => {
            assert_eq!(user_id, "u1");
            assert_eq!(platform, "discord");
            assert_eq!(metadata, &vec![("channel".to_string(), "general".to_string())]);
        }
        other => panic!("unexpected: {:?}", other),
    }
    let (state, action) =
        state.advance(Event::ConversationCreated(conversation(9, "u1")), &policy());
    assert_eq!(state.stage, Stage::SavingInbound);
    assert_eq!(state.conversation_id, Some(9));
    assert!(matches!(action, Action::SaveMessage { conversation_id: 9, .. }));
}

#[test]
fn failing_message_is_retried_three_times_then_marked_failed() {
    let mut m = message("u1", "hello");
    let id = m.id;
    let mut requeued = 0;
    loop {
        let (state, _) = Processing::start(m);
        let (state, action) = state.advance(
            Event::Failed(ServiceError::DatabaseError("connection refused".to_string())),
            &policy(),
        );
        match action {
            Action::Requeue { message } => {
                assert!(state.is_finished());
                requeued += 1;
                assert_eq!(message.retry_count, requeued);
                assert_eq!(message.id, id);
                m = message;
            }
            Action::MarkFailed { message_id, retry_count } => {
                assert_eq!(state.stage, Stage::MarkingFailed);
                assert_eq!(message_id, id);
                assert_eq!(retry_count, 3);
                break;
            }
            other => panic!("unexpected: {:?}", other),
        }
    }
    assert_eq!(requeued, 3);
}

#[test]
fn escalation_marks_notifies_and_reports_the_error() {
    let mut m = message("u1", "hello");
    m.retry_count = 3;
    let id = m.id;
    let (state, _) = Processing::start(m);
    let (state, _) = state.advance(Event::ActiveConversation(Some(conversation(1, "u1"))), &policy());
    let (state, action) = state.advance(
        Event::Failed(ServiceError::ProcessingError("upstream timed out".to_string())),
        &policy(),
    );
    assert!(matches!(action, Action::MarkFailed { retry_count: 3, .. }));
    let (state, action) = state.advance(Event::Done, &policy());
    assert_eq!(state.stage, Stage::Notifying);
    match &action {
        Action::Notify { message_id, user_id, reason, timestamp } => {
            assert_eq!(*message_id, id);
            assert_eq!(user_id, "u1");
            assert_eq!(reason, "Failed to process message: upstream timed out");
            assert_eq!(*timestamp, 1_700_000_100);
        }
        other => panic!("unexpected: {:?}", other),
    }
    // a notification that fails is swallowed: no retry, no second notification
    let (state, action) =
        state.advance(Event::Failed(ServiceError::Internal("webhook down".to_string())), &policy());
    assert!(state.is_finished());
    match action {
        Action::Fail { error: ServiceError::ProcessingError(text) } => {
            assert_eq!(text, "upstream timed out")
        }
        other => panic!("unexpected: {:?}", other),
    }
}

#[test]
fn escalation_without_notification_ends_after_marking() {
    let mut m = message("u1", "hello");
    m.retry_count = 3;
    let quiet = Policy { notify_failures: false, ..policy() };
    let (state, _) = Processing::start(m);
    let (state, _) =
        state.advance(Event::Failed(ServiceError::DatabaseError("down".to_string())), &quiet);
    // marking may itself fail; the escalation goes on
    let (state, action) =
        state.advance(Event::Failed(ServiceError::DatabaseError("still down".to_string())), &quiet);
    assert!(state.is_finished());
    match action {
        Action::Fail { error: ServiceError::DatabaseError(text) } => assert_eq!(text, "down"),
        other => panic!("unexpected: {:?}", other),
    }
}

#[test]
fn full_queue_ends_the_retries_early() {
    let crowded = Policy { queue_has_room: false, ..policy() };
    let m = message("u1", "hello");
    let (state, _) = Processing::start(m);
    let (state, action) =
        state.advance(Event::Failed(ServiceError::DatabaseError("down".to_string())), &crowded);
    assert_eq!(state.stage, Stage::MarkingFailed);
    assert!(matches!(action, Action::MarkFailed { retry_count: 0, .. }));
}

#[test]
fn failure_that_will_not_pass_is_not_retried() {
    let (state, _) = Processing::start(message("u1", "hello"));
    let (state, action) =
        state.advance(Event::Failed(ServiceError::Unauthorized("u1".to_string())), &policy());
    assert!(state.is_finished());
    assert_eq!(state.message.retry_count, 0);
    match action {
        Action::Fail { error: ServiceError::Unauthorized(text) } => assert_eq!(text, "u1"),
        other => panic!("unexpected: {:?}", other),
    }
}

#[test]
fn event_out_of_turn_ends_the_processing() {
    let (state, _) = Processing::start(message("u1", "hello"));
    let (state, action) = state.advance(Event::Completion("early".to_string()), &policy());
    assert!(state.is_finished());
    match action {
        Action::Fail { error: ServiceError::Internal(text) } => assert_eq!(text, "unexpected event"),
        other => panic!("unexpected: {:?}", other),
    }
    let (state, action) = state.advance(Event::Done, &policy());
    assert!(state.is_finished());
    assert!(matches!(action, Action::Fail { error: ServiceError::Internal(_) }));
    let (_, action) =
        state.advance(Event::Failed(ServiceError::DatabaseError("late".to_string())), &policy());
    assert!(matches!(action, Action::Fail { error: ServiceError::Internal(_) }));
}

#[test]
fn upstream_failure_in_a_full_run_requeues_and_keeps_the_inbound_message() {
    let mut store = ConversationStore::new();
    let mut prompts = Vec::new();
    let (state, action) =
        run(&mut store, message("u1", "hello"), &Err("503".to_string()), &mut prompts, 1000);
    assert!(state.is_finished());
    match action {
        Action::Requeue { message } => assert_eq!(message.retry_count, 1),
        other => panic!("unexpected: {:?}", other),
    }
    assert_eq!(prompts.len(), 1);
    let c = store.find_active_conversation("u1", 1000).unwrap();
    assert_eq!(store.get_conversation_messages(c.id, None, 10).unwrap().len(), 1);
}

fn to_context_stage(m: Message, inbound: u128) -> Processing {
    let (state, _) = Processing::start(m);
    let (state, _) =
        state.advance(Event::ActiveConversation(Some(conversation(77, "u1"))), &policy());
    let (state, _) =
        state.advance(Event::MessageSaved(stored(inbound, 77, "u1", "current")), &policy());
    state
}

#[test]
fn prompt_holds_the_five_most_recent_earlier_messages() {
    let state = to_context_stage(message("u1", "current"), 500);
    // what a fetch of six brings back, newest first, with the inbound message on top
    let recent = vec![
        stored(500, 77, "u1", "current"),
        stored(499, 77, "u1", "five"),
        stored(498, 77, "assistant", "four"),
        stored(497, 77, "u1", "three"),
        stored(496, 77, "assistant", "two"),
        stored(495, 77, "u1", "one"),
    ];
    let (_, action) = state.advance(Event::RecentMessages(recent), &policy());
    match action {
        Action::Complete { prompt } => assert_eq!(
            prompt,
            "Previous conversation:\nHuman: one\nAssistant: two\nHuman: three\nAssistant: four\nHuman: five\n\nHuman: current\n\nAssistant:"
        ),
        other => panic!("unexpected: {:?}", other),
    }
}

#[test]
fn prompt_never_holds_more_than_five_earlier_messages() {
    let state = to_context_stage(message("u1", "current"), 500);
    // six earlier messages and no inbound one among them: the oldest is dropped
    let recent = vec![
        stored(499, 77, "u1", "six"),
        stored(498, 77, "u1", "five"),
        stored(497, 77, "u1", "four"),
        stored(496, 77, "u1", "three"),
        stored(495, 77, "u1", "two"),
        stored(494, 77, "u1", "one"),
    ];
    let (_, action) = state.advance(Event::RecentMessages(recent), &policy());
    match action {
        Action::Complete { prompt } => assert_eq!(
            prompt,
            "Previous conversation:\nHuman: two\nHuman: three\nHuman: four\nHuman: five\nHuman: six\n\nHuman: current\n\nAssistant:"
        ),
        other => panic!("unexpected: {:?}", other),
    }
}

#[test]
fn sixth_message_of_a_user_sees_the_five_before_it() {
    let mut store = ConversationStore::new();
    let mut prompts = Vec::new();
    for (i, text) in ["m1", "m2", "m3", "m4", "m5", "m6", "m7"].iter().enumerate() {
        run(&mut store, message("u1", text), &Ok("ok".to_string()), &mut prompts, 1000 + i as i64);
    }
    assert_eq!(
        prompts[5],
        "Previous conversation:\nHuman: m1\nHuman: m2\nHuman: m3\nHuman: m4\nHuman: m5\n\nHuman: m6\n\nAssistant:"
    );
    assert_eq!(
        prompts[6],
        "Previous conversation:\nHuman: m2\nHuman: m3\nHuman: m4\nHuman: m5\nHuman: m6\n\nHuman: m7\n\nAssistant:"
    );
}

#[test]
fn reserved_identity_is_what_the_policy_names() {
    let other = Policy { system_user_id: "bot".to_string(), ..policy() };
    let state = to_context_stage(message("u1", "current"), 500);
    let recent = vec![stored(499, 77, "bot", "two"), stored(498, 77, "assistant", "one")];
    let (state, action) = state.advance(Event::RecentMessages(recent), &other);
    match action {
        Action::Complete { prompt } => assert_eq!(
            prompt,
            "Previous conversation:\nHuman: one\nAssistant: two\n\nHuman: current\n\nAssistant:"
        ),
        other => panic!("unexpected: {:?}", other),
    }
    let (_, action) = state.advance(Event::Completion("three".to_string()), &other);
    match action {
        Action::SaveMessage { user_id, content, .. } => {
            assert_eq!(user_id, "bot");
            assert_eq!(content, "three");
        }
        other => panic!("unexpected: {:?}", other),
    }
}

#[test]
fn stored_message_is_marked_under_its_stored_identifier() {
    let mut m = message("u1", "current");
    m.retry_count = 3;
    let submitted = m.id;
    // before the inbound message is written, the submitted identifier is all there is
    let (state, _) = Processing::start(m.duplicate());
    let (_, action) =
        state.advance(Event::Failed(ServiceError::DatabaseError("down".to_string())), &policy());
    assert!(matches!(action, Action::MarkFailed { message_id, .. } if message_id == submitted));
    // once it is written, the store knows it under the identifier that it gave
    let state = to_context_stage(m, 500);
    let (_, action) =
        state.advance(Event::Failed(ServiceError::DatabaseError("down".to_string())), &policy());
    assert!(matches!(action, Action::MarkFailed { message_id: 500, retry_count: 3 }));
}

#[test]
fn exhausted_message_is_marked_in_the_store() {
    let mut store = ConversationStore::new();
    let mut prompts = Vec::new();
    let mut m = message("u1", "hello");
    m.retry_count = 3;
    let (state, action) = run(&mut store, m, &Err("503".to_string()), &mut prompts, 1000);
    assert!(state.is_finished());
    assert!(matches!(action, Action::Fail { error: ServiceError::ProcessingError(_) }));
    let c = store.find_active_conversation("u1", 1000).unwrap();
    let ms = store.get_conversation_messages(c.id, None, 10).unwrap();
    assert_eq!(ms.len(), 1);
    assert!(ms[0].failed);
}
