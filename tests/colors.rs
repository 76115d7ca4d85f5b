use hive::colors::{
    agent_colors, dim_color, get_agent_color, get_agent_color_for_mode, get_status_colors_for_mode, status_colors,
    Color,
};
use hive::config::ColorMode;
use hive::event::AgentStatus;

#[test]
fn test_dim_color_rgb() {
    let color = Color::Rgb(100, 200, 50);
    let dimmed = dim_color(color, 500);
    assert_eq!(dimmed, Color::Rgb(50, 100, 25));
}

#[test]
fn test_dim_color_full_brightness() {
    let color = Color::Rgb(100, 200, 50);
    let dimmed = dim_color(color, 1000);
    assert_eq!(dimmed, Color::Rgb(100, 200, 50));
}

#[test]
fn test_dim_color_zero() {
    let color = Color::Rgb(100, 200, 50);
    let dimmed = dim_color(color, 0);
    assert_eq!(dimmed, Color::Rgb(0, 0, 0));
}

#[test]
fn test_dim_color_non_rgb() {
    let color = Color::Blue;
    let dimmed = dim_color(color, 500);
    assert_eq!(dimmed, Color::Blue);
}

#[test]
fn dim_color_saturates() {
    assert_eq!(dim_color(Color::Rgb(200, 10, 0), 2000), Color::Rgb(255, 20, 0));
}

#[test]
fn test_get_agent_color_wraps() {
    let color0 = get_agent_color(0);
    let color8 = get_agent_color(8);
    assert_eq!(color0, color8);
}

#[test]
fn test_status_colors_get() {
    let colors = status_colors();
    assert_eq!(colors.get(AgentStatus::Active), colors.active);
    assert_eq!(colors.get(AgentStatus::Error), colors.error);
}

#[test]
fn test_color_mode_for_mode() {
    let true_color = get_agent_color_for_mode(0, ColorMode::TrueColor);
    let basic_color = get_agent_color_for_mode(0, ColorMode::Basic16);

    assert_eq!(true_color, agent_colors(ColorMode::TrueColor)[0]);
    assert_eq!(basic_color, agent_colors(ColorMode::Basic16)[0]);
}

#[test]
fn palettes_by_mode() {
    assert_eq!(get_agent_color(1), Color::Rgb(230, 159, 0));
    assert_eq!(get_agent_color_for_mode(9, ColorMode::Color256), Color::Indexed(214));
    assert_eq!(get_status_colors_for_mode(ColorMode::Basic16).waiting, Color::Yellow);
    assert_eq!(get_status_colors_for_mode(ColorMode::Monochrome).idle, Color::Rgb(100, 100, 100));
}
