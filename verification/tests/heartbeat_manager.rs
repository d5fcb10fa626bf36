use rithmic_rs::heartbeat_manager::{timed_out, HeartbeatManager};

#[test]
fn nothing_pending_at_start() {
    let mut m = HeartbeatManager::new(60);
    assert!(m.next_timeout_at().is_none());
    assert_eq!(m.check_timeout(), None);
    assert!(!m.received("hb"));
}

#[test]
fn matching_answer_clears_pending() {
    let mut m = HeartbeatManager::new(60);
    m.sent("hb-1".to_string());
    assert!(m.next_timeout_at().is_some());
    assert!(m.received("hb-1"));
    assert!(m.next_timeout_at().is_none());
    assert!(!m.received("hb-1"));
}

#[test]
fn other_answer_keeps_pending() {
    let mut m = HeartbeatManager::new(60);
    m.sent("hb-1".to_string());
    assert!(!m.received("hb-2"));
    assert!(m.next_timeout_at().is_some());
    assert!(m.received("hb-1"));
}

#[test]
fn newer_heartbeat_replaces_older() {
    let mut m = HeartbeatManager::new(60);
    m.sent("hb-1".to_string());
    m.sent("hb-2".to_string());
    assert!(!m.received("hb-1"));
    assert!(m.received("hb-2"));
}

#[test]
fn give_up_returns_pending_id() {
    let mut m = HeartbeatManager::new(60);
    m.sent("hb-3".to_string());
    assert_eq!(m.give_up_if(false), None);
    assert_eq!(m.give_up_if(true), Some("hb-3".to_string()));
    assert_eq!(m.give_up_if(true), None);
    assert!(!m.received("hb-3"));
}

#[test]
fn fresh_heartbeat_has_not_timed_out() {
    let mut m = HeartbeatManager::new(3600);
    m.sent("hb-4".to_string());
    assert_eq!(m.check_timeout(), None);
    assert!(m.received("hb-4"));
}

#[test]
fn unrepresentable_deadline_is_none() {
    let mut m = HeartbeatManager::new(u64::MAX);
    m.sent("hb-5".to_string());
    assert!(m.next_timeout_at().is_none());
    assert!(m.received("hb-5"));
}

#[test]
fn timeout_must_be_exceeded_strictly() {
    assert!(!timed_out(30, 0, 30));
    assert!(timed_out(30, 1, 30));
    assert!(timed_out(31, 0, 30));
    assert!(!timed_out(29, 999_999_999, 30));
    assert!(!timed_out(0, 0, 0));
    assert!(timed_out(0, 1, 0));
}

#[test]
fn check_timeout_at_gives_up_after_timeout() {
    let mut m = HeartbeatManager::new(30);
    m.sent("hb1".to_string());
    assert_eq!(m.check_timeout_at(30, 0), None);
    assert!(m.next_timeout_at().is_some());
    assert_eq!(m.check_timeout_at(31, 0), Some("hb1".to_string()));
    assert!(m.next_timeout_at().is_none());
    assert_eq!(m.check_timeout_at(100, 0), None);
    assert!(!m.received("hb1"));
}
