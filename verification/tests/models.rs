use message_handler::models::{AgentAction, ConversationState, Message, DEFAULT_TIMEOUT};
use message_handler::ServiceError;

fn message(user_id: &str, content: String) -> Message {
    Message {
        id: uuid::Uuid::new_v4().as_u128(),
        user_id: user_id.to_string(),
        platform: "discord".to_string(),
        content,
        timestamp: chrono::Utc::now().timestamp(),
        priority: "normal".to_string(),
        metadata: Vec::new(),
        retry_count: 0,
        thread_id: None,
    }
}

#[test]
fn test_conversation_state_default() {
    let state = ConversationState::default();
    assert!(state.active);
    assert_eq!(state.message_count, 0);
    assert_eq!(state.retry_attempts, 0);
}

#[test]
fn test_conversation_state_new() {
    let state = ConversationState::new("discord".to_string());
    assert_eq!(state.platform, "discord".to_string());
    assert!(state.active);
}

#[test]
fn test_agent_action_methods() {
    assert!(AgentAction::Continue.should_continue());
    assert!(!AgentAction::Ignore.should_continue());
    assert!(AgentAction::SwapToken.should_swap_token());
    assert!(!AgentAction::Continue.should_swap_token());
}

#[test]
fn conversation_state_default_is_idle_on_discord() {
    let state = ConversationState::default();
    assert_eq!(state.platform, "discord");
    assert_eq!(state.last_action, AgentAction::Ignore);
    assert_eq!(state.thread_id, None);
    assert_eq!(state.last_activity, 0);
}

#[test]
fn conversation_state_counts_messages_and_retries() {
    let mut state = ConversationState::new("slack".to_string());
    state.increment_message_count();
    state.increment_message_count();
    assert_eq!(state.message_count, 2);
    assert_eq!(state.increment_retry(), 1);
    assert_eq!(state.increment_retry(), 2);
    assert_eq!(state.retry_attempts, 2);
    state.set_thread_id("t-1".to_string());
    assert_eq!(state.thread_id, Some("t-1".to_string()));
    state.update_last_activity(1_700_000_000);
    assert_eq!(state.last_activity, 1_700_000_000);
}

#[test]
fn conversation_state_counters_stop_at_the_top() {
    let mut state = ConversationState::new("slack".to_string());
    state.message_count = u32::MAX;
    state.retry_attempts = u32::MAX;
    state.increment_message_count();
    assert_eq!(state.message_count, u32::MAX);
    assert_eq!(state.increment_retry(), u32::MAX);
}

#[test]
fn conversation_state_expires_after_the_timeout() {
    let mut state = ConversationState::new("discord".to_string());
    state.update_last_activity(1000);
    assert_eq!(DEFAULT_TIMEOUT, 300);
    assert!(!state.is_expired(1000));
    assert!(!state.is_expired(1300));
    assert!(state.is_expired(1301));
    assert!(!state.is_expired(0));
}

#[test]
fn conversation_state_expiry_at_the_ends_of_the_range() {
    let mut state = ConversationState::new("discord".to_string());
    state.update_last_activity(i64::MIN);
    assert!(state.is_expired(i64::MAX));
    state.update_last_activity(i64::MAX);
    assert!(!state.is_expired(i64::MIN));
    state.update_last_activity(-10);
    assert!(state.is_expired(i64::MAX));
}

#[test]
fn validation_accepts_exactly_4000_characters() {
    let m = message("u1", "a".repeat(4000));
    assert!(m.validate().is_ok());
}

#[test]
fn validation_rejects_4001_characters() {
    let m = message("u1", "a".repeat(4001));
    match m.validate() {
        Err(ServiceError::InvalidMessage(text)) => {
            assert_eq!(text, "Message content exceeds maximum length of 4000 characters")
        }
        other => panic!("unexpected: {:?}", other),
    }
}

#[test]
fn validation_rejects_empty_content() {
    let m = message("u1", String::new());
    match m.validate() {
        Err(ServiceError::InvalidMessage(text)) => {
            assert_eq!(text, "Message content cannot be empty")
        }
        other => panic!("unexpected: {:?}", other),
    }
}

#[test]
fn validation_rejects_empty_user() {
    let m = message("", "hello".to_string());
    match m.validate() {
        Err(ServiceError::InvalidMessage(text)) => assert_eq!(text, "User ID cannot be empty"),
        other => panic!("unexpected: {:?}", other),
    }
}

#[test]
fn validation_counts_characters_not_bytes() {
    // 4000 characters of three bytes each
    let m = message("u1", "\u{20ac}".repeat(4000));
    assert_eq!(m.content.len(), 12000);
    assert!(m.validate().is_ok());
    let m = message("u1", "\u{20ac}".repeat(4001));
    assert!(m.validate().is_err());
}

#[test]
fn message_duplicate_keeps_every_field() {
    let mut m = message("u1", "hello".to_string());
    m.metadata.push(("channel".to_string(), "general".to_string()));
    m.thread_id = Some("t-9".to_string());
    m.retry_count = 2;
    let d = m.duplicate();
    assert_eq!(d.id, m.id);
    assert_eq!(d.user_id, m.user_id);
    assert_eq!(d.platform, m.platform);
    assert_eq!(d.content, m.content);
    assert_eq!(d.timestamp, m.timestamp);
    assert_eq!(d.priority, m.priority);
    assert_eq!(d.metadata, m.metadata);
    assert_eq!(d.retry_count, 2);
    assert_eq!(d.thread_id, m.thread_id);
}
