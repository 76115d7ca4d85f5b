use hive::activity::{ActivityEntry, ActivityLog};

#[test]
fn test_activity_log_creation() {
    let log: ActivityLog<&str> = ActivityLog::new(10);
    assert!(log.is_empty());
    assert_eq!(log.len(), 0);
}

#[test]
fn test_activity_log_add() {
    let mut log = ActivityLog::new(10);
    log.add("agent-1".to_string(), "Test message".to_string(), "blue", 0);
    assert_eq!(log.len(), 1);
    assert!(!log.is_empty());
}

#[test]
fn test_activity_log_max_entries() {
    let mut log = ActivityLog::new(3);
    log.add("agent-1".to_string(), "Message 1".to_string(), "blue", 0);
    log.add("agent-2".to_string(), "Message 2".to_string(), "green", 1);
    log.add("agent-3".to_string(), "Message 3".to_string(), "red", 2);
    log.add("agent-4".to_string(), "Message 4".to_string(), "yellow", 3);

    assert_eq!(log.len(), 3);

    let entries: Vec<_> = log.entries().iter().collect();
    assert_eq!(entries[0].agent_id, "agent-2");
    assert_eq!(entries[2].agent_id, "agent-4");
}

#[test]
fn test_activity_entry_age() {
    let entry = ActivityEntry::new("test".to_string(), "message".to_string(), "blue", 5000);
    assert!(entry.age_millis(5000) < 1000);
    assert_eq!(entry.age_millis(6500), 1500);
    assert_eq!(entry.age_millis(10), 0);
}

#[test]
fn test_activity_log_clear() {
    let mut log = ActivityLog::new(10);
    log.add("agent-1".to_string(), "Message 1".to_string(), "blue", 0);
    log.add("agent-2".to_string(), "Message 2".to_string(), "green", 0);
    assert_eq!(log.len(), 2);

    log.clear();
    assert!(log.is_empty());
}
