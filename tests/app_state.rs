use hive::animation::{AnimationLoop, FRAME_DURATION_MS, TARGET_FPS};
use hive::config::{AppConfig, ColorMode};
use hive::demo::{ActivityStyle, NarrativePhase};
use hive::event::AgentStatus;
use hive::input::{InputEvent, InputHandler, KeyCode, KeyPress, MouseAction};
use hive::ui::{EmptyStateType, EmptyStateWidget};

fn key(code: KeyCode) -> KeyPress {
    KeyPress { code, ctrl: false }
}

#[test]
fn test_narrative_phase_cycle() {
    let mut phase = NarrativePhase::Exploration;
    phase = phase.next();
    assert_eq!(phase, NarrativePhase::Discovery);
    phase = phase.next();
    assert_eq!(phase, NarrativePhase::Collaboration);
    phase = phase.next();
    assert_eq!(phase, NarrativePhase::Resolution);
    phase = phase.next();
    assert_eq!(phase, NarrativePhase::Exploration);
}

#[test]
fn phase_durations_and_intervals() {
    assert_eq!(NarrativePhase::Collaboration.duration_range(), (10000, 15000));
    assert_eq!(NarrativePhase::Resolution.duration_range(), (5000, 8000));
    assert_eq!(ActivityStyle::Fast.update_interval_range(), (500, 900));
    assert_eq!(ActivityStyle::Bursty.update_interval_range(), (1000, 1500));
}

#[test]
fn command_keys() {
    let h = InputHandler::new();
    assert_eq!(h.handle_key(key(KeyCode::Char('q'))), InputEvent::Quit);
    assert_eq!(h.handle_key(KeyPress { code: KeyCode::Char('c'), ctrl: true }), InputEvent::Quit);
    assert_eq!(h.handle_key(key(KeyCode::Char('c'))), InputEvent::ClearHeatMap);
    assert_eq!(h.handle_key(key(KeyCode::Char(' '))), InputEvent::TogglePause);
    assert_eq!(h.handle_key(key(KeyCode::Char('='))), InputEvent::SpeedUp);
    assert_eq!(h.handle_key(key(KeyCode::Left)), InputEvent::SeekBackward);
    assert_eq!(h.handle_key(key(KeyCode::Char('3'))), InputEvent::SetModeDebug);
    assert_eq!(h.handle_key(key(KeyCode::Enter)), InputEvent::NoOp);
}

#[test]
fn help_and_filter_keys() {
    let mut h = InputHandler::new();
    h.set_filter_mode(true);
    assert!(h.is_filter_mode());
    assert_eq!(h.handle_key(key(KeyCode::Char('q'))), InputEvent::CharInput('q'));
    assert_eq!(h.handle_key(key(KeyCode::Backspace)), InputEvent::CharInput('\x08'));
    assert_eq!(h.handle_key(key(KeyCode::Esc)), InputEvent::ExitFilterMode);
    h.set_help_visible(true);
    assert_eq!(h.handle_key(key(KeyCode::Enter)), InputEvent::CloseHelp);
    assert_eq!(h.handle_mouse(MouseAction::LeftDown, 3, 4), InputEvent::MouseClick { x: 3, y: 4 });
    assert_eq!(h.handle_mouse(MouseAction::Other, 3, 4), InputEvent::NoOp);
}

#[test]
fn frame_pacing() {
    let mut l = AnimationLoop::new(1000);
    assert_eq!(l.fps(), TARGET_FPS);
    assert!(!l.should_render(1020));
    assert_eq!(l.time_until_next_frame(1020), 13);
    assert!(l.should_render(1000 + FRAME_DURATION_MS));
    assert_eq!(l.time_until_next_frame(1100), 0);
    for i in 1..=20u64 {
        l.frame_rendered(1000 + 50 * i);
    }
    assert_eq!(l.frame_count(), 20);
    assert_eq!(l.fps(), 20);
    assert_eq!(l.delta_millis(2010), 10);
}

#[test]
fn defaults() {
    let c = AppConfig::default();
    assert!(c.file_path.is_none() && !c.demo_mode && c.show_heatmap && c.show_trails && c.show_landmarks);
    assert_eq!(ColorMode::default(), ColorMode::TrueColor);
    assert_eq!(AgentStatus::default(), AgentStatus::Idle);
}

#[test]
fn empty_state_text() {
    assert_eq!(EmptyStateType::NoAgents.message(), "No agents connected");
    assert_eq!(EmptyStateType::AllFiltered.hint(), "Press Esc to clear filter");
    let w = EmptyStateWidget::new(EmptyStateType::AllFiltered);
    assert_eq!(w.state_type(), EmptyStateType::AllFiltered);
}

#[test]
fn easing_default() {
    assert_eq!(hive::interpolation::EasingFunction::default(), hive::interpolation::EasingFunction::EaseOutCubic);
}
