use vstd::prelude::*;

verus! {

/// Render layers, from the back of the picture to the front.
#[derive(Clone, Copy, Debug, PartialEq, Eq, PartialOrd, Ord, Hash, Structural)]
pub enum RenderLayer {
    Background,
    Zones,
    Grid,
    Heatmap,
    Trails,
    Connections,
    Flashes,
    Agents,
    Labels,
    StatusIndicators,
    UI,
    Overlays,
}

/// Number of render layers.
pub const LAYER_COUNT: usize = 12;

/// The position of a layer in render order, 0 for the background.
pub open spec fn z_of(layer: RenderLayer) -> int {
    match layer {
        RenderLayer::Background => 0,
        RenderLayer::Zones => 1,
        RenderLayer::Grid => 2,
        RenderLayer::Heatmap => 3,
        RenderLayer::Trails => 4,
        RenderLayer::Connections => 5,
        RenderLayer::Flashes => 6,
        RenderLayer::Agents => 7,
        RenderLayer::Labels => 8,
        RenderLayer::StatusIndicators => 9,
        RenderLayer::UI => 10,
        RenderLayer::Overlays => 11,
    }
}

impl RenderLayer {
    /// Every layer, in render order.
    pub fn all() -> (r: [RenderLayer; 12])
        ensures
            forall|i: int| 0 <= i < 12 ==> z_of(#[trigger] r@[i]) == i,
    {
        [
            RenderLayer::Background,
            RenderLayer::Zones,
            RenderLayer::Grid,
            RenderLayer::Heatmap,
            RenderLayer::Trails,
            RenderLayer::Connections,
            RenderLayer::Flashes,
            RenderLayer::Agents,
            RenderLayer::Labels,
            RenderLayer::StatusIndicators,
            RenderLayer::UI,
            RenderLayer::Overlays,
        ]
    }

    /// The layer's position in render order.
    pub fn z_index(self) -> (r: u8)
        ensures
            r == z_of(self),
    {
        match self {
            RenderLayer::Background => 0,
            RenderLayer::Zones => 1,
            RenderLayer::Grid => 2,
            RenderLayer::Heatmap => 3,
            RenderLayer::Trails => 4,
            RenderLayer::Connections => 5,
            RenderLayer::Flashes => 6,
            RenderLayer::Agents => 7,
            RenderLayer::Labels => 8,
            RenderLayer::StatusIndicators => 9,
            RenderLayer::UI => 10,
            RenderLayer::Overlays => 11,
        }
    }

    /// Whether this layer is drawn over `other`.
    pub fn renders_above(self, other: RenderLayer) -> (r: bool)
        ensures
            r == (z_of(self) > z_of(other)),
    {
        self.z_index() > other.z_index()
    }
}

/// Which layers are drawn.
#[derive(Clone, Debug)]
pub struct LayerVisibility {
    enabled: [bool; 12],
}

impl LayerVisibility {
    /// Whether each layer is drawn, by render order.
    pub closed spec fn shown(&self) -> Seq<bool> {
        self.enabled@
    }

    /// Every layer drawn.
    pub fn new() -> (r: Self)
        ensures
            r.shown().len() == 12,
            forall|i: int| 0 <= i < 12 ==> #[trigger] r.shown()[i],
    {
        LayerVisibility { enabled: [true; 12] }
    }

    /// Whether `layer` is drawn.
    pub fn is_visible(&self, layer: RenderLayer) -> (r: bool)
        ensures
            r == self.shown()[z_of(layer)],
    {
        self.enabled[layer.z_index() as usize]
    }

    /// Draws `layer` or not, as `visible` says.
    pub fn set_visible(&mut self, layer: RenderLayer, visible: bool)
        ensures
            final(self).shown() == old(self).shown().update(z_of(layer), visible),
    {
        self.enabled[layer.z_index() as usize] = visible;
    }

    /// Flips whether `layer` is drawn.
    pub fn toggle(&mut self, layer: RenderLayer)
        ensures
            final(self).shown() == old(self).shown().update(z_of(layer), !old(self).shown()[z_of(layer)]),
    {
        let idx = layer.z_index() as usize;
        self.enabled[idx] = !self.enabled[idx];
    }
}

impl Default for LayerVisibility {
    fn default() -> (r: Self)
        ensures
            r.shown().len() == 12,
            forall|i: int| 0 <= i < 12 ==> #[trigger] r.shown()[i],
    {
        Self::new()
    }
}

} // verus!
