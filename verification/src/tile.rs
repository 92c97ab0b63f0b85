use vstd::prelude::*;

use crate::palette::PaletteName;
use crate::rect::Rect;
use crate::sprite::{SpriteId, SpriteKey, SpritePaletteKey};
use crate::world::TILE_SIZE;

verus! {

/// One cell of the world grid: its position, what it draws, and its cached
/// drawing rectangle in world pixels.
#[derive(Clone, Copy, Debug, PartialEq, Eq, Structural)]
pub struct Tile {
    pub sprite_key: SpriteKey,
    pub draw_rect: Rect,
    pub x: usize,
    pub y: usize,
}

/// The tile that `Tile::new` builds: a specific sprite drawn with one
/// palette for foreground and background, on the cell's tile-sized
/// rectangle.
pub open spec fn tile_at(x: usize, y: usize, sid: SpriteId, palette: PaletteName) -> Tile {
    Tile {
        sprite_key: SpriteKey::Specific(
            SpritePaletteKey { foreground: palette, background: palette, sid },
        ),
        x,
        y,
        draw_rect: Rect {
            left: (x * TILE_SIZE) as usize,
            top: (y * TILE_SIZE) as usize,
            right: ((x + 1) * TILE_SIZE) as usize,
            bottom: ((y + 1) * TILE_SIZE) as usize,
        },
    }
}

impl Tile {
    /// The rectangle of world pixels the tile is drawn on.
    pub fn get_drawing_rect(&self) -> (r: &Rect)
        ensures
            *r == self.draw_rect,
    {
        &self.draw_rect
    }

    pub fn new(x: usize, y: usize, sid: SpriteId, palette: PaletteName) -> (r: Tile)
        requires
            (x + 1) * TILE_SIZE <= usize::MAX,
            (y + 1) * TILE_SIZE <= usize::MAX,
        ensures
            r == tile_at(x, y, sid, palette),
    {
        Tile {
            sprite_key: SpriteKey::Specific(SpritePaletteKey::new(sid, palette, palette)),
            x,
            y,
            draw_rect: Rect::new(
                x * TILE_SIZE,
                y * TILE_SIZE,
                (x + 1) * TILE_SIZE,
                (y + 1) * TILE_SIZE,
            ),
        }
    }

    /// Replaces what the tile draws.
    pub fn set_visual(&mut self, sprite_key: SpriteKey)
        ensures
            final(self).sprite_key == sprite_key,
            final(self).draw_rect == old(self).draw_rect,
            final(self).x == old(self).x,
            final(self).y == old(self).y,
    {
        self.sprite_key = sprite_key;
    }

    pub fn get_sprite_key(&self) -> (r: &SpriteKey)
        ensures
            *r == self.sprite_key,
    {
        &self.sprite_key
    }
}

} // verus!
