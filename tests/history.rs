use hive::history::History;

fn ten_event_log() -> History<u32> {
    let mut h = History::new();
    for i in 0..10u32 {
        h.record(i, 1000 + 100 * i as u64);
    }
    h
}

#[test]
fn record_and_duration() {
    let h = ten_event_log();
    assert_eq!(h.len(), 10);
    assert!(!h.is_empty());
    assert_eq!(h.duration(), 900);
    assert!(History::<u32>::new().is_empty());
    assert_eq!(History::<u32>::new().duration(), 0);
}

#[test]
fn fast_replay_drains_all_then_loops() {
    let mut h = ten_event_log();
    h.start_replay(5000);
    let first = h.get_replay_events(5001, 1_000_000);
    assert_eq!(first, (0..10).collect::<Vec<u32>>());
    assert_eq!(h.position(), (0, 10));
    let again = h.get_replay_events(5002, 1_000_000);
    assert_eq!(again[0], 0);
    assert_eq!(again.len(), 10);
}

#[test]
fn replay_follows_receipt_times() {
    let mut h = ten_event_log();
    h.start_replay(5000);
    assert_eq!(h.get_replay_events(5000, 1000), vec![0]);
    assert_eq!(h.get_replay_events(5250, 1000), vec![1, 2]);
    assert_eq!(h.get_replay_events(5250, 1000), Vec::<u32>::new());
    // At double speed 200 ms of wall time cover 400 ms of the recording.
    assert_eq!(h.get_replay_events(5200, 2000), vec![3, 4]);
    assert_eq!(h.position(), (5, 10));
}

#[test]
fn replay_needs_replay_mode() {
    let mut h = ten_event_log();
    assert!(h.get_replay_events(9999, 1000).is_empty());
    h.start_replay(0);
    h.stop_replay();
    assert!(h.get_replay_events(9999, 1000).is_empty());
    let mut empty: History<u32> = History::new();
    empty.start_replay(0);
    assert!(empty.get_replay_events(10, 1000).is_empty());
}

#[test]
fn seek_half_way_on_ten_events() {
    let mut h = ten_event_log();
    h.start_replay(0);
    h.seek(500, 7000);
    assert_eq!(h.position(), (4, 10));
    // The offset is half the span, 450 ms: events up to receipt 1450 are due at once.
    assert_eq!(h.get_replay_events(7000, 1000), vec![4]);
    assert_eq!(h.get_replay_events(7050, 1000), vec![5]);
}

#[test]
fn seek_clamps_and_ignores_empty_log() {
    let mut h = ten_event_log();
    h.seek(5000, 0);
    assert_eq!(h.position(), (9, 10));
    h.seek(0, 0);
    assert_eq!(h.position(), (0, 10));
    let mut empty: History<u32> = History::new();
    empty.seek(500, 0);
    assert_eq!(empty.position(), (0, 1));
}

#[test]
fn events_before_cursor() {
    let mut h = ten_event_log();
    h.seek(500, 0);
    assert_eq!(h.get_events_to_position(), vec![0, 1, 2, 3]);
}

#[test]
fn load_events_spaces_receipts() {
    let mut h: History<&str> = History::new();
    h.load_events(vec!["a", "b", "c"], 10);
    assert_eq!(h.len(), 3);
    assert_eq!(h.duration(), 200);
    h.start_replay(0);
    assert_eq!(h.get_replay_events(100, 1000), vec!["a", "b"]);
}
