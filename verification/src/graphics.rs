use vstd::prelude::*;
use crate::assets::AnimationID;

verus! {

/// A colour with eight bits per channel.
#[derive(Clone, Copy, Debug, PartialEq, Eq, Structural)]
pub struct Color {
    pub r: u8,
    pub g: u8,
    pub b: u8,
    pub a: u8,
}

/// Black without any opacity: what a layer is cleared to before it is
/// drawn again.
pub fn transparent() -> (c: Color)
    ensures
        c == (Color { r: 0, g: 0, b: 0, a: 0 }),
{
    Color { r: 0, g: 0, b: 0, a: 0 }
}

/// One instruction for whoever paints a layer. Positions and sizes are in
/// steps.
#[derive(Clone, Copy, Debug, PartialEq, Eq, Structural)]
pub enum DrawCall {
    /// The frame that an animation shows after so many milliseconds, at a
    /// position, mirrored or not.
    Animation(AnimationID, u32, i64, i64, bool),
    /// A filled rectangle: position, size, colour.
    Rect(i64, i64, i64, i64, Color),
    /// The tile in a column and row of the tile sheet, at a position.
    Tileset(usize, usize, i64, i64),
    /// The whole layer filled with a colour.
    Clear(Color),
}

/// The instructions that wait to be painted onto one layer.
pub struct RenderLayer {
    pub calls: Vec<DrawCall>,
}

impl RenderLayer {
    pub fn new() -> (layer: RenderLayer)
        ensures
            layer.calls@ == Seq::<DrawCall>::empty(),
    {
        RenderLayer { calls: Vec::new() }
    }

    /// Hands out the waiting instructions, oldest first, and leaves the
    /// layer with none.
    pub fn draw(&mut self) -> (calls: Vec<DrawCall>)
        ensures
            calls@ == old(self).calls@,
            final(self).calls@ == Seq::<DrawCall>::empty(),
    {
        let mut calls: Vec<DrawCall> = Vec::new();
        std::mem::swap(&mut calls, &mut self.calls);
        calls
    }
}

/// The four layers of the picture.
pub struct RenderLayers {
    /// The map; mostly static.
    pub world: RenderLayer,
    /// What is drawn over the actors; mostly static.
    pub world_foreground: RenderLayer,
    /// The actors.
    pub entities: RenderLayer,
    /// The interface.
    pub ui: RenderLayer,
}

impl RenderLayers {
    pub fn new() -> (layers: RenderLayers)
        ensures
            layers.world.calls@ == Seq::<DrawCall>::empty(),
            layers.world_foreground.calls@ == Seq::<DrawCall>::empty(),
            layers.entities.calls@ == Seq::<DrawCall>::empty(),
            layers.ui.calls@ == Seq::<DrawCall>::empty(),
    {
        RenderLayers {
            world: RenderLayer::new(),
            entities: RenderLayer::new(),
            world_foreground: RenderLayer::new(),
            ui: RenderLayer::new(),
        }
    }

    /// The layers that are painted anew every frame: actors, then interface.
    pub fn get_redrawn(&mut self) -> (layers: [&mut RenderLayer; 2])
        ensures
            *layers[0] == old(self).entities,
            *layers[1] == old(self).ui,
            final(self).entities == *final(layers[0]),
            final(self).ui == *final(layers[1]),
            final(self).world == old(self).world,
            final(self).world_foreground == old(self).world_foreground,
    {
        [&mut self.entities, &mut self.ui]
    }

    /// All four layers, bottom to top.
    pub fn get_all(&mut self) -> (layers: [&mut RenderLayer; 4])
        ensures
            *layers[0] == old(self).world,
            *layers[1] == old(self).entities,
            *layers[2] == old(self).world_foreground,
            *layers[3] == old(self).ui,
            final(self).world == *final(layers[0]),
            final(self).entities == *final(layers[1]),
            final(self).world_foreground == *final(layers[2]),
            final(self).ui == *final(layers[3]),
    {
        [&mut self.world, &mut self.entities, &mut self.world_foreground, &mut self.ui]
    }
}

} // verus!
