use vstd::prelude::*;
use crate::layers::{LayerVisibility, RenderLayer, z_of};

verus! {

/// Presets of layer visibility.
#[derive(Clone, Copy, Debug, PartialEq, Eq, Structural)]
pub enum DisplayMode {
    /// Agents and labels only.
    Minimal,
    /// Agents with connections, trails and activity flashes.
    Standard,
    /// Every layer.
    Debug,
}

impl Default for DisplayMode {
    fn default() -> (r: Self)
        ensures
            r == DisplayMode::Standard,
    {
        DisplayMode::Standard
    }
}

/// Whether `mode` shows the layer at render position `z`. Background,
/// agents, labels, status indicators, UI and overlays are always shown.
pub open spec fn mode_shows(mode: DisplayMode, z: int) -> bool {
    let optional = z == z_of(RenderLayer::Zones) || z == z_of(RenderLayer::Grid) || z == z_of(
        RenderLayer::Heatmap,
    ) || z == z_of(RenderLayer::Trails) || z == z_of(RenderLayer::Connections) || z == z_of(
        RenderLayer::Flashes,
    );
    let standard = z == z_of(RenderLayer::Trails) || z == z_of(RenderLayer::Connections) || z
        == z_of(RenderLayer::Flashes);
    match mode {
        DisplayMode::Minimal => !optional,
        DisplayMode::Standard => !optional || standard,
        DisplayMode::Debug => true,
    }
}

impl DisplayMode {
    /// The layers this mode shows.
    pub fn layer_visibility(&self) -> (r: LayerVisibility)
        ensures
            r.shown().len() == 12,
            forall|z: int| 0 <= z < 12 ==> #[trigger] r.shown()[z] == mode_shows(*self, z),
    {
        let mut visibility = LayerVisibility::new();
        visibility.set_visible(RenderLayer::Zones, false);
        visibility.set_visible(RenderLayer::Grid, false);
        visibility.set_visible(RenderLayer::Heatmap, false);
        visibility.set_visible(RenderLayer::Trails, false);
        visibility.set_visible(RenderLayer::Connections, false);
        visibility.set_visible(RenderLayer::Flashes, false);
        match self {
            DisplayMode::Minimal => {},
            DisplayMode::Standard => {
                visibility.set_visible(RenderLayer::Trails, true);
                visibility.set_visible(RenderLayer::Connections, true);
                visibility.set_visible(RenderLayer::Flashes, true);
            },
            DisplayMode::Debug => {
                visibility.set_visible(RenderLayer::Zones, true);
                visibility.set_visible(RenderLayer::Grid, true);
                visibility.set_visible(RenderLayer::Heatmap, true);
                visibility.set_visible(RenderLayer::Trails, true);
                visibility.set_visible(RenderLayer::Connections, true);
                visibility.set_visible(RenderLayer::Flashes, true);
            },
        }
        visibility
    }

    /// The next mode: Minimal, then Standard, then Debug, then Minimal again.
    pub fn cycle(&self) -> (r: DisplayMode)
        ensures
            r == match *self {
                DisplayMode::Minimal => DisplayMode::Standard,
                DisplayMode::Standard => DisplayMode::Debug,
                DisplayMode::Debug => DisplayMode::Minimal,
            },
    {
        match self {
            DisplayMode::Minimal => DisplayMode::Standard,
            DisplayMode::Standard => DisplayMode::Debug,
            DisplayMode::Debug => DisplayMode::Minimal,
        }
    }

    /// The mode's display name.
    pub fn name(&self) -> (r: &'static str)
        ensures
            r@ == match *self {
                DisplayMode::Minimal => "Minimal"@,
                DisplayMode::Standard => "Standard"@,
                DisplayMode::Debug => "Debug"@,
            },
    {
        match self {
            DisplayMode::Minimal => "Minimal",
            DisplayMode::Standard => "Standard",
            DisplayMode::Debug => "Debug",
        }
    }

    /// A short account of what the mode shows.
    pub fn description(&self) -> (r: &'static str)
        ensures
            r@ == match *self {
                DisplayMode::Minimal => "agents + labels"@,
                DisplayMode::Standard => "agents + trails + connections"@,
                DisplayMode::Debug => "all layers visible"@,
            },
    {
        match self {
            DisplayMode::Minimal => "agents + labels",
            DisplayMode::Standard => "agents + trails + connections",
            DisplayMode::Debug => "all layers visible",
        }
    }
}

} // verus!
