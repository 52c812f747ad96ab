use message_handler::db::{Conversation, ConversationStore, StoredMessage};
use message_handler::handlers::conversation::{
    authorize, cap, handle_conversation_messages, handle_get_conversation,
    handle_list_conversations, has_more_messages, has_more_pages, offset_of,
};
use message_handler::handlers::health::handle_health;
use message_handler::handlers::messages::handle_message;
use message_handler::handlers::{ApiResponse, ConversationQuery, MessagesQuery};
use message_handler::{MessageHandler, ServiceError};

fn conversation(id: u128, user_id: &str) -> Conversation {
    Conversation {
        id,
        user_id: user_id.to_string(),
        platform: "discord".to_string(),
        started_at: 1000,
        ended_at: None,
        is_active: true,
        metadata: Vec::new(),
        created_at: 1000,
    }
}

fn query(page: Option<i64>, page_size: Option<i64>) -> ConversationQuery {
    ConversationQuery { user_id: "u1".to_string(), include_inactive: None, page, page_size }
}

#[test]
fn api_response_wraps_data() {
    let r = ApiResponse::at(5u8, 77);
    assert!(r.success);
    assert_eq!(r.data, 5);
    assert_eq!(r.timestamp, 77);
    let r = ApiResponse::new("x".to_string());
    assert!(r.success);
    assert_eq!(r.data, "x");
    assert!(r.timestamp > 1_600_000_000);
}

#[test]
fn health_names_the_version() {
    let r = handle_health();
    assert!(r.success);
    assert_eq!(r.data.status, "healthy");
    assert_eq!(r.data.version, "0.1.0");
    assert_eq!(message_handler::version::current(), "0.1.0");
}

#[test]
fn message_answer_carries_the_completion_or_wraps_the_error() {
    let r = handle_message(9, Ok("hi".to_string()), 50).unwrap();
    assert!(r.success);
    assert_eq!(r.timestamp, 50);
    assert_eq!(r.data.message_id, 9);
    assert_eq!(r.data.response, "hi");
    match handle_message(9, Err(ServiceError::DatabaseError("down".to_string())), 50) {
        Err(ServiceError::ProcessingError(text)) => assert_eq!(text, "Database error: down"),
        other => panic!("unexpected: {:?}", other),
    }
}

#[test]
fn query_defaults_and_caps() {
    let q = query(None, None);
    assert!(!q.wants_inactive());
    assert_eq!(q.limit(), 20);
    assert_eq!(q.page_number(), 0);
    assert_eq!(q.offset(), 0);
    let q = query(Some(3), Some(500));
    assert_eq!(q.limit(), 100);
    assert_eq!(q.page_number(), 3);
    assert_eq!(q.offset(), 300);
    let q = query(Some(-2), Some(10));
    assert_eq!(q.page_number(), 0);
    assert_eq!(q.offset(), 0);
    let q = ConversationQuery { include_inactive: Some(true), ..query(Some(2), Some(7)) };
    assert!(q.wants_inactive());
    assert_eq!(q.offset(), 14);
    let m = MessagesQuery { offset: None, limit: None };
    assert_eq!(m.limit(), 50);
    assert_eq!(m.offset(), 0);
    let m = MessagesQuery { offset: Some(-4), limit: Some(1000) };
    assert_eq!(m.limit(), 100);
    assert_eq!(m.offset(), 0);
    let m = MessagesQuery { offset: Some(30), limit: Some(100) };
    assert_eq!(m.limit(), 100);
    assert_eq!(m.offset(), 30);
}

#[test]
fn offsets_and_caps_at_the_ends_of_the_range() {
    assert_eq!(cap(100), 100);
    assert_eq!(cap(101), 100);
    assert_eq!(cap(-5), -5);
    assert_eq!(cap(i64::MAX), 100);
    assert_eq!(offset_of(20, 3), 60);
    assert_eq!(offset_of(100, i64::MAX), i64::MAX);
    assert_eq!(offset_of(i64::MIN, i64::MAX), i64::MIN);
    assert_eq!(offset_of(1, i64::MAX), i64::MAX);
    assert_eq!(offset_of(20, i64::MIN), 0);
}

#[test]
fn has_more_by_total_count() {
    // (page + 1) * page_size < total_count
    assert!(has_more_pages(20, 0, 21));
    assert!(!has_more_pages(20, 0, 20));
    assert!(has_more_pages(20, 1, 41));
    assert!(!has_more_pages(20, 1, 40));
    assert!(!has_more_pages(20, 0, 0));
    assert!(has_more_pages(500, 0, 101));
    assert!(!has_more_pages(500, 0, 100));
    assert!(has_more_pages(20, -7, 21));
    assert!(!has_more_pages(100, i64::MAX, i64::MAX));
    assert!(has_more_pages(i64::MIN, i64::MAX, i64::MIN));
}

#[test]
fn has_more_by_returned_count() {
    assert!(has_more_messages(50, 50));
    assert!(!has_more_messages(49, 50));
    assert!(has_more_messages(0, 0));
    assert!(!has_more_messages(0, -1));
    assert!(!has_more_messages(usize::MAX, -1));
    let q = MessagesQuery { offset: None, limit: Some(2) };
    let two = vec![stored(1), stored(2)];
    let r = handle_conversation_messages(&q, two);
    assert!(r.has_more);
    assert_eq!(r.messages.len(), 2);
    let r = handle_conversation_messages(&q, vec![stored(1)]);
    assert!(!r.has_more);
}

fn stored(id: u128) -> StoredMessage {
    StoredMessage {
        id,
        conversation_id: 1,
        user_id: "u1".to_string(),
        content: "x".to_string(),
        thread_id: None,
        platform: "discord".to_string(),
        metadata: Vec::new(),
        created_at: 1000,
        failed: false,
        response_length: None,
        processing_time: None,
    }
}

#[test]
fn list_answer_carries_page_total_and_flag() {
    let q = query(Some(0), Some(2));
    let r = handle_list_conversations(&q, vec![conversation(1, "u1"), conversation(2, "u1")], 5);
    assert!(r.success);
    assert_eq!(r.data.conversations.len(), 2);
    assert_eq!(r.data.total_count, 5);
    assert!(r.data.has_more);
    let q = query(Some(2), Some(2));
    let r = handle_list_conversations(&q, vec![conversation(5, "u1")], 5);
    assert!(!r.data.has_more);
}

#[test]
fn missing_conversation_is_not_found() {
    assert_eq!(handle_get_conversation(Some(conversation(1, "u1"))).unwrap().id, 1);
    match handle_get_conversation(None) {
        Err(e @ ServiceError::NotFound(_)) => {
            assert_eq!(e.status_code(), 404);
            assert_eq!(e.describe(), "Not found: conversation");
        }
        other => panic!("unexpected: {:?}", other),
    }
}

#[test]
fn only_the_owner_reads_a_conversation() {
    let c = conversation(1, "u1");
    assert!(authorize(&c, "u1").is_ok());
    match authorize(&c, "u2") {
        Err(ServiceError::Unauthorized(user)) => assert_eq!(user, "u2"),
        other => panic!("unexpected: {:?}", other),
    }
    assert!(authorize(&c, "").is_err());
    assert!(authorize(&c, "u10").is_err());
}

#[test]
fn read_side_against_a_store() {
    let mut store = ConversationStore::new();
    let day = 86400;
    for i in 0..3i64 {
        store
            .create_conversation_at((i + 1) as u128, "u1", "discord".to_string(), Vec::new(), i * day)
            .unwrap();
    }
    for i in 0..5u128 {
        store
            .save_message_at(100 + i, 3, "u1", "x", None, "discord".to_string(), Vec::new(), 2 * day)
            .unwrap();
    }
    assert_eq!(MessageHandler::get_conversation(&store, 2).unwrap().id, 2);
    assert!(MessageHandler::get_conversation(&store, 9).is_none());

    let (page, total) =
        MessageHandler::list_conversations_paginated(&store, "u1", true, 2, 0).unwrap();
    assert_eq!(page.iter().map(|c| c.id).collect::<Vec<_>>(), vec![3, 2]);
    assert_eq!(total, 3);
    let (page, total) =
        MessageHandler::list_conversations_paginated(&store, "u1", true, 2, 1).unwrap();
    assert_eq!(page.iter().map(|c| c.id).collect::<Vec<_>>(), vec![1]);
    assert_eq!(total, 3);
    let (page, _) = MessageHandler::list_conversations_paginated(&store, "u1", true, 2, -1).unwrap();
    assert_eq!(page.len(), 2);
    assert!(MessageHandler::list_conversations_paginated(&store, "u1", true, -1, 0).is_err());
    let (page, _) =
        MessageHandler::list_conversations_paginated(&store, "u1", true, 1000, 0).unwrap();
    assert_eq!(page.len(), 3);

    let (ms, more) = MessageHandler::get_conversation_messages(&store, 3, None, 5).unwrap();
    assert_eq!(ms.len(), 5);
    assert!(more);
    let (ms, more) = MessageHandler::get_conversation_messages(&store, 3, Some(3), 5).unwrap();
    assert_eq!(ms.iter().map(|m| m.id).collect::<Vec<_>>(), vec![101, 100]);
    assert!(!more);
    let (ms, _) = MessageHandler::get_conversation_messages(&store, 3, Some(-3), 2).unwrap();
    assert_eq!(ms.iter().map(|m| m.id).collect::<Vec<_>>(), vec![104, 103]);
    assert!(MessageHandler::get_conversation_messages(&store, 3, None, -1).is_err());
}
