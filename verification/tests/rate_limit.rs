use message_handler::rate_limit::{AdmissionGate, Window};
use message_handler::ServiceError;

#[test]
fn gate_first_submission_opens_a_window() {
    let mut gate = AdmissionGate::new(60, 100);
    assert_eq!(gate.window("u1"), None);
    assert!(gate.submit("u1", 1000).is_ok());
    assert_eq!(gate.window("u1"), Some(Window { start: 1000, count: 1 }));
}

#[test]
fn gate_rejects_the_submission_after_the_limit() {
    let mut gate = AdmissionGate::new(60, 3);
    assert!(gate.submit("u1", 1000).is_ok());
    assert!(gate.submit("u1", 1010).is_ok());
    assert!(gate.submit("u1", 1059).is_ok());
    match gate.submit("u1", 1059) {
        Err(ServiceError::RateLimitExceeded(user)) => assert_eq!(user, "u1"),
        other => panic!("unexpected: {:?}", other),
    }
    assert_eq!(gate.window("u1"), Some(Window { start: 1000, count: 3 }));
}

#[test]
fn gate_admits_again_after_the_window() {
    let mut gate = AdmissionGate::new(60, 2);
    assert!(gate.submit("u1", 1000).is_ok());
    assert!(gate.submit("u1", 1001).is_ok());
    assert!(gate.submit("u1", 1002).is_err());
    assert!(gate.submit("u1", 1061).is_ok());
    assert_eq!(gate.window("u1"), Some(Window { start: 1061, count: 1 }));
}

#[test]
fn gate_window_ends_exactly_at_its_length() {
    let mut gate = AdmissionGate::new(60, 1);
    assert!(gate.submit("u1", 1000).is_ok());
    assert!(gate.submit("u1", 1059).is_err());
    assert!(gate.submit("u1", 1060).is_ok());
    assert_eq!(gate.window("u1"), Some(Window { start: 1060, count: 1 }));
}

#[test]
fn gate_counts_users_apart() {
    let mut gate = AdmissionGate::new(60, 1);
    assert!(gate.submit("u1", 1000).is_ok());
    assert!(gate.submit("u2", 1000).is_ok());
    assert!(gate.submit("u1", 1001).is_err());
    assert!(gate.submit("u2", 1001).is_err());
    assert!(gate.submit("u3", 1001).is_ok());
}

#[test]
fn gate_default_limit_is_a_hundred_a_minute() {
    let mut gate = AdmissionGate::new(
        message_handler::constants::DEFAULT_RATE_LIMIT_WINDOW,
        message_handler::constants::DEFAULT_RATE_LIMIT_MAX,
    );
    assert_eq!(gate.window_length(), 60);
    assert_eq!(gate.max_per_window(), 100);
    for i in 0..100 {
        assert!(gate.submit("u1", 5000 + (i % 60)).is_ok());
    }
    assert!(gate.submit("u1", 5059).is_err());
    assert!(gate.submit("u1", 5061).is_ok());
}

#[test]
fn gate_lets_a_burst_through_at_the_window_boundary() {
    let mut gate = AdmissionGate::new(60, 2);
    assert!(gate.submit("u1", 1000).is_ok());
    assert!(gate.submit("u1", 1059).is_ok());
    assert!(gate.submit("u1", 1060).is_ok());
    assert!(gate.submit("u1", 1061).is_ok());
    assert!(gate.submit("u1", 1062).is_err());
}

#[test]
fn gate_with_a_limit_of_zero_admits_the_first_of_each_window() {
    let mut gate = AdmissionGate::new(60, 0);
    assert!(gate.submit("u1", 1000).is_ok());
    assert!(gate.submit("u1", 1001).is_err());
    assert!(gate.submit("u1", 1060).is_ok());
}

#[test]
fn gate_survives_times_at_the_ends_of_the_range() {
    let mut gate = AdmissionGate::new(60, 5);
    assert!(gate.submit("u1", i64::MIN).is_ok());
    assert!(gate.submit("u1", i64::MAX).is_ok());
    assert_eq!(gate.window("u1"), Some(Window { start: i64::MAX, count: 1 }));
    assert!(gate.submit("u1", i64::MIN).is_ok());
    assert_eq!(gate.window("u1"), Some(Window { start: i64::MAX, count: 2 }));
}
