use message_handler::config::{number_or, parse_or, Config, ConfigSource};
use message_handler::db::timestamp::{from_pg_micros, to_pg_micros, Moment};
use message_handler::db::StoredMessage;
use message_handler::prompt::{build_prompt, exclude, keep_first, CONTEXT_LIMIT, FETCH_LIMIT};
use message_handler::services::completion::{
    assemble_request, compose_request, interpret, read_response, request_body, FALLBACK_RESPONSE,
    MAX_TOKENS,
};
use message_handler::sessions::SessionMap;
use message_handler::table::{same_text, UserTable};
use message_handler::text::{clone_opt, clone_pairs, decimal};
use message_handler::ServiceError;

fn stored(id: u128, user_id: &str, content: &str) -> StoredMessage {
    StoredMessage {
        id,
        conversation_id: 1,
        user_id: user_id.to_string(),
        content: content.to_string(),
        thread_id: None,
        platform: "discord".to_string(),
        metadata: Vec::new(),
        created_at: 1000,
        failed: false,
        response_length: None,
        processing_time: None,
    }
}

#[test]
fn decimal_numerals() {
    assert_eq!(decimal(0), "0");
    assert_eq!(decimal(7), "7");
    assert_eq!(decimal(10), "10");
    assert_eq!(decimal(4000), "4000");
    assert_eq!(decimal(1234567890), "1234567890");
    assert_eq!(decimal(u64::MAX), "18446744073709551615");
    for n in [9u64, 99, 100, 101, 65535, 1 << 40] {
        assert_eq!(decimal(n), n.to_string());
    }
}

#[test]
fn copies_are_equal() {
    assert_eq!(clone_opt(&None), None);
    assert_eq!(clone_opt(&Some("a".to_string())), Some("a".to_string()));
    let v = vec![("a".to_string(), "b".to_string()), ("c".to_string(), String::new())];
    assert_eq!(clone_pairs(&v), v);
    assert_eq!(clone_pairs(&Vec::new()), Vec::new());
}

#[test]
fn same_text_compares_characters() {
    assert!(same_text("", ""));
    assert!(same_text("abc", "abc"));
    assert!(!same_text("abc", "abd"));
    assert!(!same_text("abc", "ab"));
    assert!(!same_text("", "a"));
    assert!(same_text("\u{e9}t\u{e9}", "\u{e9}t\u{e9}"));
    assert!(!same_text("\u{e9}", "e"));
}

#[test]
fn user_table_keeps_one_value_per_user() {
    let mut t: UserTable<u32> = UserTable::new();
    assert_eq!(t.len(), 0);
    assert_eq!(t.get("a"), None);
    t.insert("a".to_string(), 1);
    t.insert("b".to_string(), 2);
    t.insert("a".to_string(), 3);
    assert_eq!(t.len(), 2);
    assert_eq!(t.get("a"), Some(&3));
    assert_eq!(t.get("b"), Some(&2));
    assert_eq!(t.get("c"), None);
}

#[test]
fn session_map_records_messages() {
    let mut m = SessionMap::new();
    assert_eq!(m.len(), 0);
    assert!(!m.is_expired("u1", 1_000_000));
    m.record_message("u1", &"slack".to_string(), 1000);
    m.record_message("u1", &"discord".to_string(), 1100);
    m.record_message("u2", &"discord".to_string(), 1200);
    assert_eq!(m.len(), 2);
    let s = m.get("u1").unwrap();
    // the platform is that of the first message
    assert_eq!(s.platform, "slack");
    assert_eq!(s.message_count, 2);
    assert_eq!(s.last_activity, 1100);
    assert!(!m.is_expired("u1", 1400));
    assert!(m.is_expired("u1", 1401));
    assert!(!m.is_expired("u2", 1401));
    assert!(m.get("u3").is_none());
}

#[test]
fn prompt_without_context() {
    assert_eq!(build_prompt("hello", &Vec::new(), "assistant"), "Human: hello\n\nAssistant:");
    assert_eq!(build_prompt("", &Vec::new(), "assistant"), "Human: \n\nAssistant:");
    assert_eq!(CONTEXT_LIMIT, 5);
    assert_eq!(FETCH_LIMIT, 6);
}

#[test]
fn prompt_renders_context_oldest_first() {
    // newest first, as the store hands it out
    let context = vec![
        stored(4, "assistant", "four"),
        stored(3, "u1", "three"),
        stored(2, "assistant", "two"),
        stored(1, "u1", "one"),
    ];
    assert_eq!(
        build_prompt("five", &context, "assistant"),
        "Previous conversation:\nHuman: one\nAssistant: two\nHuman: three\nAssistant: four\n\nHuman: five\n\nAssistant:"
    );
    // any other sender is the human
    let context = vec![stored(1, "Assistant", "x")];
    assert_eq!(
        build_prompt("y", &context, "assistant"),
        "Previous conversation:\nHuman: x\n\nHuman: y\n\nAssistant:"
    );
}

#[test]
fn exclude_drops_by_identifier() {
    let context = vec![stored(3, "u1", "c"), stored(2, "u1", "b"), stored(1, "u1", "a")];
    let rest = exclude(context, 2);
    assert_eq!(rest.iter().map(|m| m.id).collect::<Vec<_>>(), vec![3, 1]);
    let rest = exclude(rest, 9);
    assert_eq!(rest.len(), 2);
    assert_eq!(exclude(Vec::new(), 1).len(), 0);
}

#[test]
fn keep_first_drops_the_rest() {
    let context = vec![stored(3, "u1", "c"), stored(2, "u1", "b"), stored(1, "u1", "a")];
    let kept = keep_first(context, 2);
    assert_eq!(kept.iter().map(|m| m.id).collect::<Vec<_>>(), vec![3, 2]);
    let kept = keep_first(kept, 5);
    assert_eq!(kept.len(), 2);
    assert_eq!(keep_first(kept, 0).len(), 0);
}

#[test]
fn prompt_speaker_follows_the_reserved_identity() {
    let context = vec![stored(2, "helper", "two"), stored(1, "assistant", "one")];
    assert_eq!(
        build_prompt("three", &context, "helper"),
        "Previous conversation:\nHuman: one\nAssistant: two\n\nHuman: three\n\nAssistant:"
    );
    assert_eq!(
        build_prompt("three", &context, ""),
        "Previous conversation:\nHuman: one\nHuman: two\n\nHuman: three\n\nAssistant:"
    );
}

#[test]
fn request_body_is_json() {
    assert_eq!(MAX_TOKENS, 1024);
    assert_eq!(
        assemble_request("\"m\"", 1024, "\"p\""),
        "{\"model\":\"m\",\"max_tokens\":1024,\"messages\":[{\"role\":\"user\",\"content\":\"p\"}]}"
    );
    let body = request_body("model-1", 1024, "Human: \"hi\"\n\nAssistant:").unwrap();
    assert_eq!(
        body,
        "{\"model\":\"model-1\",\"max_tokens\":1024,\"messages\":[{\"role\":\"user\",\"content\":\"Human: \\\"hi\\\"\\n\\nAssistant:\"}]}"
    );
    let v: serde_json::Value = serde_json::from_str(&body).unwrap();
    assert_eq!(v["model"].as_str(), Some("model-1"));
    assert_eq!(v["max_tokens"].as_u64(), Some(1024));
    assert_eq!(v["messages"][0]["role"].as_str(), Some("user"));
    assert_eq!(v["messages"][0]["content"].as_str(), Some("Human: \"hi\"\n\nAssistant:"));
}

#[test]
fn response_text_is_read_from_the_answer() {
    let body = "{\"content\":[{\"type\":\"text\",\"text\":\"Hello!\"}],\"role\":\"assistant\"}";
    assert_eq!(read_response(body).unwrap(), "Hello!");
    // a body that is the whole answer is not its own text
    assert_ne!(read_response(body).unwrap(), body);
    assert_eq!(read_response("{}").unwrap(), FALLBACK_RESPONSE);
    assert_eq!(read_response("{\"content\":[]}").unwrap(), FALLBACK_RESPONSE);
    assert_eq!(read_response("{\"content\":[{\"text\":5}]}").unwrap(), FALLBACK_RESPONSE);
    assert_eq!(read_response("\"text\"").unwrap(), FALLBACK_RESPONSE);
    // a list is asked for: a member named "0" is not its first place
    assert_eq!(
        read_response("{\"content\":{\"0\":{\"text\":\"x\"}}}").unwrap(),
        FALLBACK_RESPONSE
    );
    assert_eq!(
        read_response("{\"content\":[{\"text\":\"first\"},{\"text\":\"second\"}]}").unwrap(),
        "first"
    );
    assert_eq!(FALLBACK_RESPONSE, "Sorry, I couldn't process that request.");
    match read_response("not json") {
        Err(ServiceError::ProcessingError(text)) => {
            assert_eq!(text, "expected ident at line 1 column 2")
        }
        other => panic!("unexpected: {:?}", other),
    }
    assert!(read_response("").is_err());
}

#[test]
fn lookup_results_are_interpreted() {
    assert_eq!(interpret(Ok(Some("x".to_string()))).unwrap(), "x");
    assert_eq!(interpret(Ok(None)).unwrap(), FALLBACK_RESPONSE);
    match interpret(Err("bad".to_string())) {
        Err(ServiceError::ProcessingError(text)) => assert_eq!(text, "bad"),
        other => panic!("unexpected: {:?}", other),
    }
}

#[test]
fn config_defaults() {
    let c = Config::defaults("postgres://localhost/db".to_string());
    assert_eq!(c.server.host, "127.0.0.1");
    assert_eq!(c.server.port, 3030);
    assert_eq!(c.server.port, message_handler::constants::DEFAULT_PORT);
    assert_eq!(c.server.thread_pool_size, 4);
    assert_eq!(c.database.url, "postgres://localhost/db");
    assert_eq!(c.database.max_connections, 5);
    assert_eq!(c.queue.size, 10000);
    assert_eq!(c.queue.retry_attempts, 3);
    assert_eq!(c.metrics.port, 9090);
}

#[test]
fn database_timestamps_count_from_the_year_2000() {
    assert_eq!(from_pg_micros(0), Moment { seconds: 946684800, nanos: 0 });
    assert_eq!(from_pg_micros(1_500_000), Moment { seconds: 946684801, nanos: 500_000_000 });
    assert_eq!(from_pg_micros(-1), Moment { seconds: 946684799, nanos: 999_999_000 });
    assert_eq!(from_pg_micros(-1_000_000), Moment { seconds: 946684799, nanos: 0 });
    assert_eq!(from_pg_micros(-1_000_001), Moment { seconds: 946684798, nanos: 999_999_000 });
    assert_eq!(
        from_pg_micros(i64::MAX),
        Moment { seconds: 946684800 + 9_223_372_036_854, nanos: 775_807_000 }
    );
    assert_eq!(
        from_pg_micros(i64::MIN),
        Moment { seconds: 946684800 - 9_223_372_036_855, nanos: 224_192_000 }
    );
    for micros in [0i64, 1, -1, 999_999, 1_000_000, -999_999, 725_846_400_123_456, i64::MAX, i64::MIN] {
        assert_eq!(to_pg_micros(from_pg_micros(micros)), Some(micros));
    }
    assert_eq!(to_pg_micros(Moment { seconds: 946684800, nanos: 1_999 }), Some(1));
    assert_eq!(to_pg_micros(Moment { seconds: 0, nanos: 0 }), Some(-946_684_800_000_000));
    assert_eq!(to_pg_micros(Moment { seconds: i64::MAX, nanos: 0 }), None);
    assert_eq!(to_pg_micros(Moment { seconds: i64::MIN, nanos: 0 }), None);
}

#[test]
fn user_table_removes_and_lists_users() {
    let mut t: UserTable<u32> = UserTable::new();
    t.insert("a".to_string(), 1);
    t.insert("b".to_string(), 2);
    t.insert("c".to_string(), 3);
    let mut users = t.keys();
    users.sort();
    assert_eq!(users, vec!["a", "b", "c"]);
    assert_eq!(t.remove("b"), Some(2));
    assert_eq!(t.remove("b"), None);
    assert_eq!(t.remove("z"), None);
    assert_eq!(t.len(), 2);
    assert_eq!(t.get("a"), Some(&1));
    assert_eq!(t.get("b"), None);
    assert_eq!(t.get("c"), Some(&3));
    assert_eq!(t.remove("a"), Some(1));
    assert_eq!(t.remove("c"), Some(3));
    assert_eq!(t.len(), 0);
    assert_eq!(t.keys(), Vec::<String>::new());
}

#[test]
fn session_map_evicts_idle_sessions() {
    let mut m = SessionMap::new();
    let platform = "discord".to_string();
    m.record_message("u1", &platform, 1000);
    m.record_message("u2", &platform, 1100);
    m.record_message("u3", &platform, 1200);
    assert_eq!(m.evict_expired(1300), 0);
    assert_eq!(m.len(), 3);
    assert_eq!(m.evict_expired(1401), 2);
    assert_eq!(m.len(), 1);
    assert!(m.get("u1").is_none());
    assert!(m.get("u2").is_none());
    assert_eq!(m.get("u3").unwrap().last_activity, 1200);
    assert_eq!(m.evict_expired(1401), 0);
    // a user who comes back starts a new session
    m.record_message("u1", &platform, 1500);
    assert_eq!(m.get("u1").unwrap().message_count, 1);
    assert_eq!(m.evict_expired(i64::MAX), 2);
    assert_eq!(m.len(), 0);
    assert_eq!(m.evict_expired(i64::MAX), 0);
}

#[test]
fn request_needs_both_texts_written() {
    let m = || Some("\"m\"".to_string());
    let p = || Some("\"p\"".to_string());
    assert_eq!(
        compose_request(m(), 7, p()).as_deref(),
        Some("{\"model\":\"m\",\"max_tokens\":7,\"messages\":[{\"role\":\"user\",\"content\":\"p\"}]}")
    );
    assert_eq!(compose_request(None, 7, p()), None);
    assert_eq!(compose_request(m(), 7, None), None);
    assert_eq!(compose_request(None, 7, None), None);
    // every text that was tried is written, the empty one and one of control characters too
    for text in ["", "plain", "\u{0}\u{1f}\"\\", "\u{20ac}\u{1f600}"] {
        let body = request_body(text, 0, text).expect("request");
        let v: serde_json::Value = serde_json::from_str(&body).unwrap();
        assert_eq!(v["model"].as_str(), Some(text));
        assert_eq!(v["max_tokens"].as_u64(), Some(0));
        assert_eq!(v["messages"][0]["content"].as_str(), Some(text));
    }
}

#[test]
fn settings_are_parsed_or_keep_their_default() {
    let text = |t: &str| Some(t.to_string());
    assert_eq!(parse_or(&text("3031"), 65535, 3030), 3031);
    assert_eq!(parse_or(&text("+8080"), 65535, 3030), 8080);
    assert_eq!(parse_or(&text("0"), 65535, 3030), 0);
    assert_eq!(parse_or(&text("007"), 65535, 3030), 7);
    assert_eq!(parse_or(&text("65535"), 65535, 3030), 65535);
    assert_eq!(parse_or(&text("65536"), 65535, 3030), 3030);
    assert_eq!(parse_or(&text(""), 65535, 3030), 3030);
    assert_eq!(parse_or(&text(" 80"), 65535, 3030), 3030);
    assert_eq!(parse_or(&text("80 "), 65535, 3030), 3030);
    assert_eq!(parse_or(&text("-1"), 65535, 3030), 3030);
    assert_eq!(parse_or(&text("eighty"), 65535, 3030), 3030);
    assert_eq!(parse_or(&text("1e3"), 65535, 3030), 3030);
    assert_eq!(parse_or(&text("18446744073709551616"), u64::MAX, 5), 5);
    assert_eq!(parse_or(&text("18446744073709551615"), u64::MAX, 5), u64::MAX);
    assert_eq!(parse_or(&None, 65535, 3030), 3030);
    assert_eq!(number_or(Some(9), 10, 1), 9);
    assert_eq!(number_or(Some(10), 10, 1), 10);
    assert_eq!(number_or(Some(11), 10, 1), 1);
    assert_eq!(number_or(None, 10, 1), 1);
    // what the per-type parsers of the standard library give
    for t in ["3031", "+8080", "65536", "", " 80", "-1", "007", "x"] {
        assert_eq!(parse_or(&text(t), u16::MAX as u64, 3030), t.parse::<u16>().unwrap_or(3030) as u64);
        assert_eq!(parse_or(&text(t), u32::MAX as u64, 5), t.parse::<u32>().unwrap_or(5) as u64);
    }
}

#[test]
fn config_is_loaded_from_its_source() {
    let c = Config::load(ConfigSource::new("postgres://localhost/db".to_string()));
    let d = Config::defaults("postgres://localhost/db".to_string());
    assert_eq!(c.server.host, d.server.host);
    assert_eq!(c.server.port, d.server.port);
    assert_eq!(c.server.thread_pool_size, d.server.thread_pool_size);
    assert_eq!(c.database.url, d.database.url);
    assert_eq!(c.database.max_connections, d.database.max_connections);
    assert_eq!(c.queue, d.queue);
    assert_eq!(c.metrics, d.metrics);

    let mut source = ConfigSource::new("postgres://db/x".to_string());
    source.server_host = Some("0.0.0.0".to_string());
    source.server_port = Some("8080".to_string());
    source.server_thread_pool_size = Some("16".to_string());
    source.database_max_connections = Some("many".to_string());
    source.queue_size = Some("250".to_string());
    source.queue_retry_attempts = Some("7".to_string());
    source.metrics_port = Some("70000".to_string());
    let c = Config::load(source);
    assert_eq!(c.server.host, "0.0.0.0");
    assert_eq!(c.server.port, 8080);
    assert_eq!(c.server.thread_pool_size, 16);
    assert_eq!(c.database.url, "postgres://db/x");
    assert_eq!(c.database.max_connections, 5);
    assert_eq!(c.queue.size, 250);
    assert_eq!(c.queue.retry_attempts, 7);
    assert_eq!(c.metrics.port, 9090);
}
