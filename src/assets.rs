use vstd::prelude::*;

verus! {

/// A sprite that can be drawn onto a graphic context
pub struct Sprite {
    filename: String,
    width: u32,
    height: u32,
    content: Vec<u8>,
}

/// An animated sprite
pub struct AnimatedSprite {
    frames: Vec<Sprite>,
    current_frame: usize,
    started: bool,
}

/// A tileset
pub struct Tileset {
    filename: String,
    tile_width: u32,
    tile_height: u32,
    content: Vec<u8>,
}

} // verus!
