use hive::event::AgentStatus;
use hive::symbols::{
    get_agent_shape, get_status_indicator, line_chars, status_indicators, trail_symbols, Symbol,
    AGENT_SHAPE_COUNT,
};

#[test]
fn test_symbol_render() {
    let sym = Symbol::new('\u{25C6}', '<', "diamond");
    assert_eq!(sym.render(true), '\u{25C6}');
    assert_eq!(sym.render(false), '<');
}

#[test]
fn test_agent_shapes_count() {
    assert_eq!(AGENT_SHAPE_COUNT, 8);
}

#[test]
fn test_get_agent_shape_wraps() {
    let shape0 = get_agent_shape(0);
    let shape8 = get_agent_shape(8);
    assert_eq!(shape0.name, shape8.name);
}

#[test]
fn agent_shapes_in_index_order() {
    assert_eq!(get_agent_shape(1).name, "triangle_up");
    assert_eq!(get_agent_shape(7).unicode, '\u{25BC}');
    assert_eq!(get_agent_shape(13).ascii, 'O');
}

#[test]
fn test_status_indicators() {
    let indicators = status_indicators();
    assert_eq!(indicators.get(&AgentStatus::Active).name, "active");
    assert_eq!(indicators.get(&AgentStatus::Thinking).name, "thinking");
    assert_eq!(indicators.get(&AgentStatus::Waiting).name, "waiting");
    assert_eq!(indicators.get(&AgentStatus::Idle).name, "idle");
    assert_eq!(indicators.get(&AgentStatus::Error).name, "error");
}

#[test]
fn status_indicator_glyphs() {
    assert_eq!(get_status_indicator(&AgentStatus::Error).render(false), '!');
    assert_eq!(get_status_indicator(&AgentStatus::Waiting).render(true), '\u{29D6}');
}

#[test]
fn test_trail_by_age() {
    let trail = trail_symbols();
    assert_eq!(trail.get_by_age(100).name, "trail_recent");
    assert_eq!(trail.get_by_age(500).name, "trail_medium");
    assert_eq!(trail.get_by_age(900).name, "trail_faded");
}

#[test]
fn line_glyphs() {
    let lines = line_chars();
    assert_eq!(lines.horizontal.render(true), '\u{2500}');
    assert_eq!(lines.arrow_left.render(false), '<');
}
