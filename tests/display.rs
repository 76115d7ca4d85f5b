use hive::display_mode::DisplayMode;
use hive::layers::{LayerVisibility, RenderLayer};

#[test]
fn test_display_mode_default() {
    assert_eq!(DisplayMode::default(), DisplayMode::Standard);
}

#[test]
fn test_cycle_order() {
    assert_eq!(DisplayMode::Minimal.cycle(), DisplayMode::Standard);
    assert_eq!(DisplayMode::Standard.cycle(), DisplayMode::Debug);
    assert_eq!(DisplayMode::Debug.cycle(), DisplayMode::Minimal);
}

#[test]
fn test_minimal_mode_layers() {
    let visibility = DisplayMode::Minimal.layer_visibility();

    assert!(visibility.is_visible(RenderLayer::Agents));
    assert!(visibility.is_visible(RenderLayer::Labels));
    assert!(visibility.is_visible(RenderLayer::UI));

    assert!(!visibility.is_visible(RenderLayer::Heatmap));
    assert!(!visibility.is_visible(RenderLayer::Trails));
    assert!(!visibility.is_visible(RenderLayer::Connections));
    assert!(!visibility.is_visible(RenderLayer::Zones));
}

#[test]
fn test_standard_mode_layers() {
    let visibility = DisplayMode::Standard.layer_visibility();

    assert!(visibility.is_visible(RenderLayer::Agents));
    assert!(visibility.is_visible(RenderLayer::Trails));
    assert!(visibility.is_visible(RenderLayer::Connections));

    assert!(!visibility.is_visible(RenderLayer::Heatmap));
    assert!(!visibility.is_visible(RenderLayer::Grid));
    assert!(!visibility.is_visible(RenderLayer::Zones));
}

#[test]
fn test_debug_mode_layers() {
    let visibility = DisplayMode::Debug.layer_visibility();

    assert!(visibility.is_visible(RenderLayer::Agents));
    assert!(visibility.is_visible(RenderLayer::Trails));
    assert!(visibility.is_visible(RenderLayer::Connections));
    assert!(visibility.is_visible(RenderLayer::Heatmap));
    assert!(visibility.is_visible(RenderLayer::Zones));
    assert!(visibility.is_visible(RenderLayer::Grid));
}

#[test]
fn test_mode_names() {
    assert_eq!(DisplayMode::Minimal.name(), "Minimal");
    assert_eq!(DisplayMode::Standard.name(), "Standard");
    assert_eq!(DisplayMode::Debug.name(), "Debug");
}

#[test]
fn mode_descriptions() {
    assert_eq!(DisplayMode::Minimal.description(), "agents + labels");
    assert_eq!(DisplayMode::Standard.description(), "agents + trails + connections");
    assert_eq!(DisplayMode::Debug.description(), "all layers visible");
}

#[test]
fn test_layer_ordering() {
    assert!(RenderLayer::Background < RenderLayer::Agents);
    assert!(RenderLayer::Agents < RenderLayer::UI);
    assert!(RenderLayer::UI < RenderLayer::Overlays);
}

#[test]
fn test_layer_z_index() {
    assert_eq!(RenderLayer::Background.z_index(), 0);
    assert_eq!(RenderLayer::Overlays.z_index(), 11);
}

#[test]
fn test_renders_above() {
    assert!(RenderLayer::Overlays.renders_above(RenderLayer::UI));
    assert!(RenderLayer::Agents.renders_above(RenderLayer::Heatmap));
    assert!(!RenderLayer::Background.renders_above(RenderLayer::Agents));
}

#[test]
fn test_layer_visibility() {
    let mut visibility = LayerVisibility::new();

    assert!(visibility.is_visible(RenderLayer::Heatmap));
    assert!(visibility.is_visible(RenderLayer::Trails));

    visibility.set_visible(RenderLayer::Heatmap, false);
    assert!(!visibility.is_visible(RenderLayer::Heatmap));

    visibility.toggle(RenderLayer::Trails);
    assert!(!visibility.is_visible(RenderLayer::Trails));
    visibility.toggle(RenderLayer::Trails);
    assert!(visibility.is_visible(RenderLayer::Trails));
}

#[test]
fn test_all_layers_in_order() {
    let layers = RenderLayer::all();
    assert_eq!(layers.len(), 12);
    assert_eq!(layers[0], RenderLayer::Background);
    assert_eq!(layers[11], RenderLayer::Overlays);

    for i in 1..layers.len() {
        assert!(layers[i] > layers[i - 1]);
    }
}
