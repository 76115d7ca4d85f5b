use hive::connection::{remove_pair, tick_all, ActiveConnection};
use hive::event::{AgentStatus, Connection, Landmark};
use hive::field::{Field, MAX_SPEED_MILLI, MIN_SPEED_MILLI};
use hive::identity::IdentityAllocator;
use hive::semantic::FocusContribution;

fn conn(from: &str, to: &str) -> Connection {
    Connection { from: from.to_string(), to: to.to_string(), label: "handoff".to_string(), timestamp: 1 }
}

#[test]
fn reverse_connection_replaces_existing() {
    let mut field = Field::new();
    field.process_connection(&conn("A", "B"), 0);
    field.process_connection(&conn("B", "A"), 10);
    assert_eq!(field.connections().len(), 1);
    assert_eq!(field.connections()[0].from, "B");
    assert_eq!(field.connections()[0].created_at, 10);
    field.process_connection(&conn("A", "C"), 20);
    assert_eq!(field.connections().len(), 2);
}

#[test]
fn remove_pair_keeps_others_in_order() {
    let c = |a: &str, b: &str| ActiveConnection::new(&conn(a, b), 0);
    let mut list = vec![c("A", "B"), c("C", "D"), c("B", "A"), c("A", "C")];
    remove_pair(&mut list, &"A".to_string(), &"B".to_string());
    let pairs: Vec<(String, String)> = list.iter().map(|x| (x.from.clone(), x.to.clone())).collect();
    assert_eq!(pairs, vec![("C".to_string(), "D".to_string()), ("A".to_string(), "C".to_string())]);
}

#[test]
fn connection_fades_in_holds_and_fades_out() {
    let mut c = ActiveConnection::new(&conn("A", "B"), 0);
    assert_eq!(c.opacity_milli, 0);
    assert!(!c.tick(150, 33));
    assert_eq!(c.opacity_milli, 500);
    assert!(!c.tick(300, 33));
    assert_eq!(c.opacity_milli, 1000);
    assert!(!c.tick(3000, 33));
    assert_eq!(c.opacity_milli, 1000);
    assert!(!c.fading_out);
    assert!(!c.tick(3001, 33));
    assert!(c.fading_out);
    assert_eq!(c.opacity_milli, 1000);
    assert!(!c.tick(3034, 100));
    assert_eq!(c.opacity_milli, 800);
    assert!(c.tick(3500, 400));
    assert_eq!(c.opacity_milli, 0);
}

#[test]
fn faded_connection_leaves_the_list() {
    let mut list = vec![ActiveConnection::new(&conn("A", "B"), 0), ActiveConnection::new(&conn("C", "D"), 3000)];
    tick_all(&mut list, 3100, 33);
    assert_eq!(list.len(), 2);
    assert!(list[0].fading_out);
    assert_eq!(list[1].opacity_milli, 333);
    tick_all(&mut list, 3200, 500);
    assert_eq!(list.len(), 1);
    assert_eq!(list[0].from, "C");
}

#[test]
fn field_tick_scales_by_speed_and_pauses() {
    let mut field = Field::new();
    field.process_connection(&conn("A", "B"), 0);
    field.tick_connections(1000, 100);
    assert_eq!(field.connections()[0].opacity_milli, 1000);
    field.tick_connections(4000, 100);
    field.tick_connections(4100, 100);
    assert_eq!(field.connections()[0].opacity_milli, 800);
    field.adjust_speed(1000);
    assert_eq!(field.playback_speed(), 2000);
    field.tick_connections(4200, 100);
    assert_eq!(field.connections()[0].opacity_milli, 400);
    field.toggle_pause();
    assert!(field.paused());
    field.tick_connections(4300, 1000);
    assert_eq!(field.connections().len(), 1);
    field.toggle_pause();
    field.tick_connections(4400, 1000);
    assert!(field.connections().is_empty());
}

#[test]
fn speed_is_clamped() {
    let mut field = Field::new();
    assert_eq!(field.playback_speed(), 1000);
    field.adjust_speed(-250);
    field.adjust_speed(-250);
    field.adjust_speed(-250);
    field.adjust_speed(-250);
    assert_eq!(field.playback_speed(), MIN_SPEED_MILLI);
    field.adjust_speed(10_000);
    assert_eq!(field.playback_speed(), MAX_SPEED_MILLI);
}

#[test]
fn agents_get_indices_in_order_of_first_sighting() {
    let mut field = Field::new();
    let a = field.process_agent_update("explorer-1", AgentStatus::Active, &vec!["auth".to_string()], "working", 7);
    let b = field.process_agent_update("builder", AgentStatus::Active, &vec![], "working", 7);
    let a2 = field.process_agent_update("explorer-1", AgentStatus::Active, &vec!["database".to_string(), "react".to_string()], "working", 7);
    let c = field.process_agent_update("tester", AgentStatus::Active, &vec!["test".to_string()], "working", 7);
    assert_eq!((a.index, a.is_new), (0, true));
    assert_eq!((b.index, b.is_new), (1, true));
    assert_eq!((a2.index, a2.is_new), (0, false));
    assert_eq!((c.index, c.is_new), (2, true));
    assert_eq!(a2.contributions.len(), 2);
    assert_eq!(field.agent_index("tester"), Some(2));
    assert_eq!(field.agents().len(), 3);
    assert_eq!(field.agents()[0].focus, vec!["database".to_string(), "react".to_string()]);
    assert_eq!(field.agents()[2].id, "tester");
    assert_eq!(field.agents()[2].color_index, 2);
    assert_eq!(field.agent_index("nobody"), None);
}

#[test]
fn allocator_never_reuses_indices() {
    let mut ids = IdentityAllocator::new();
    assert_eq!(ids.assign("a"), (0, true));
    assert_eq!(ids.assign("b"), (1, true));
    assert_eq!(ids.assign("a"), (0, false));
    assert_eq!(ids.assign("c"), (2, true));
    assert_eq!(ids.len(), 3);
    assert_eq!(ids.index_of("b"), Some(1));
}

#[test]
fn landmarks_upsert_and_attract_focus() {
    let mut field = Field::new();
    let lm = |id: &str, kw: &str| Landmark {
        id: id.to_string(),
        label: id.to_uppercase(),
        keywords: vec![kw.to_string()],
        timestamp: 0,
    };
    field.process_landmark(&lm("pay", "stripe"));
    field.process_landmark(&lm("docs", "manual"));
    field.process_landmark(&lm("pay", "billing"));
    assert_eq!(field.landmarks().len(), 2);
    assert_eq!(field.landmarks()[0].keywords, vec!["billing".to_string()]);
    assert_eq!(field.landmarks()[0].placements.len(), 1);
    let t = field.process_agent_update("x", AgentStatus::Active, &vec!["Billing".to_string(), "stripe".to_string()], "working", 7);
    assert_eq!(t.contributions[0], FocusContribution::Landmark(0));
    assert!(matches!(t.contributions[1], FocusContribution::Placed(_)));
}
