use vstd::prelude::*;

use crate::palette::PaletteName;
use crate::sprite::SpriteId;

verus! {

/// What a UI button stands for: a palette swatch, a specific sprite, or a
/// sprite group.
#[derive(Debug, PartialEq, Eq, Clone, Copy, Structural)]
pub enum ButtonKind {
    Palette(PaletteName),
    Sprite(SpriteId),
    SpriteGroup(),
}

/// What a button reported for one frame: whether it was clicked and
/// whether the pointer was over it.
#[derive(Debug, PartialEq, Eq, Clone, Copy, Structural)]
pub struct ButtonState {
    pub hit: bool,
    pub hovered: bool,
}

} // verus!
