use vstd::prelude::*;

use crate::math::{is_mode, mode, xy_to_i};
use crate::palette::{palette_code_spec, palette_from_code, PaletteName};
use crate::sprite::{
    nine_tile_dir_spec, NineSliceDir, SpriteGroup, SpriteGroupPaletteKey, SpriteId, SpriteKey,
    SpriteNineGroup, SpriteNinePaletteKey, SpritePaletteKey, TileContextError,
};
use crate::tile::Tile;
use crate::world::World;

verus! {

/// The palette code tallied for one neighbor cell: green for an empty
/// cell, else the code of the tile's background palette.
pub open spec fn surround_code(t: Option<Tile>) -> u8 {
    match t {
        None => palette_code_spec(PaletteName::Green),
        Some(tile) => palette_code_spec(tile.sprite_key.bg_spec()),
    }
}

/// The palette codes tallied over a neighbor list.
pub open spec fn surround_codes(s: Seq<Option<Tile>>) -> Seq<u8> {
    s.map_values(|t: Option<Tile>| surround_code(t))
}

/// The palette a tally's winning code selects: the named palette when the
/// code is a known one, else green.
pub open spec fn palette_or_green(m: u8) -> PaletteName {
    match palette_from_code(m) {
        Some(p) => p,
        None => PaletteName::Green,
    }
}

/// Infers a background palette from a cell's neighbors: the most frequent
/// background palette among them, counting empty cells as green, and green
/// when there are no neighbors at all.
pub fn get_surrounding_bg(surrounding: &Vec<Option<Tile>>) -> (r: PaletteName)
    ensures
        surrounding@.len() == 0 ==> r == PaletteName::Green,
        surrounding@.len() > 0 ==> exists|m: u8|
            is_mode(surround_codes(surrounding@), m) && r == palette_or_green(m),
{
    let n = surrounding.len();
    let mut surrounding_palettes: Vec<u8> = Vec::new();
    for i in 0..n
        invariant
            n == surrounding@.len(),
            surrounding_palettes@.len() == i,
            forall|j: int|
                0 <= j < i ==> surrounding_palettes@[j] == surround_code(surrounding@[j]),
    {
        let c = match &surrounding[i] {
            None => PaletteName::Green.code(),
            Some(tile) => tile.get_sprite_key().get_bg().code(),
        };
        surrounding_palettes.push(c);
    }
    proof {
        assert(surrounding_palettes@ =~= surround_codes(surrounding@));
    }
    let m = mode(surrounding_palettes.as_slice());
    if let Some(mv) = m {
        let p = match PaletteName::try_from(mv) {
            Some(p) => p,
            None => PaletteName::Green,
        };
        proof {
            assert(is_mode(surround_codes(surrounding@), mv) && p == palette_or_green(mv));
        }
        p
    } else {
        PaletteName::Green
    }
}

/// A chosen nine-slice group and animation frame.
pub struct SelectionNine {
    pub group: SpriteNineGroup,
    pub index: u8,
}

/// A chosen sprite group and animation frame.
pub struct SelectionGroup {
    pub group: SpriteGroup,
    pub index: u8,
}

/// The user's current paint choices: at most one of a specific sprite, a
/// group, or a nine-slice group, with a foreground palette and an optional
/// explicit background palette.
pub struct Selections {
    pub sid: Option<SpriteId>,
    pub group: Option<SelectionGroup>,
    pub nine: Option<SelectionNine>,
    pub foreground: PaletteName,
    pub background: Option<PaletteName>,
}

/// The background palette a paint action uses: the explicit choice when
/// one was made, else the palette inferred from the neighbor list.
pub open spec fn background_choice(sel: Selections, surr: Seq<Option<Tile>>, bg: PaletteName) -> bool {
    match sel.background {
        Some(b) => bg == b,
        None => {
            if surr.len() == 0 {
                bg == PaletteName::Green
            } else {
                exists|m: u8| is_mode(surround_codes(surr), m) && bg == palette_or_green(m)
            }
        },
    }
}

impl Selections {
    /// The sprite key a paint action writes into the cell at
    /// `(tile_x, tile_y)`: a nine-slice piece resolved from the cell's
    /// neighbors when a nine-slice group is selected, else the selected
    /// sprite or group, else the empty sprite. Fails only when a selected
    /// nine-slice group meets a neighbor configuration outside the
    /// direction table.
    pub fn get_sprite_key(&self, world: &World, tile_x: &usize, tile_y: &usize) -> (r: Result<
        SpriteKey,
        TileContextError,
    >)
        requires
            world.wf(),
            *tile_x < world.width,
            *tile_y < world.height,
        ensures
            self.nine is None ==> r is Ok,
            self.nine matches Some(nine) ==> (nine_tile_dir_spec(
                world.surrounding_spec(*tile_x as int, *tile_y as int),
                nine.group,
            ) matches Err(e) ==> r == Err::<SpriteKey, TileContextError>(e)),
            self.nine matches Some(nine) ==> (nine_tile_dir_spec(
                world.surrounding_spec(*tile_x as int, *tile_y as int),
                nine.group,
            ) matches Ok(d) ==> exists|bg: PaletteName|
                background_choice(*self, world.surrounding_spec(*tile_x as int, *tile_y as int), bg)
                    && r == Ok::<SpriteKey, TileContextError>(
                    SpriteKey::Nine(
                        (SpriteNinePaletteKey {
                            nine_dir: d,
                            foreground: self.foreground,
                            background: bg,
                            sg_index: nine.index,
                            sg: nine.group,
                        }),
                    ),
                )),
            self.sid matches Some(sid) ==> (self.nine is None ==> exists|bg: PaletteName|
                background_choice(*self, world.surrounding_spec(*tile_x as int, *tile_y as int), bg)
                    && r == Ok::<SpriteKey, TileContextError>(
                    SpriteKey::Specific(
                        (SpritePaletteKey { foreground: self.foreground, background: bg, sid }),
                    ),
                )),
            self.group matches Some(group) ==> ((self.nine is None && self.sid is None) ==> exists|
                bg: PaletteName,
            |
                background_choice(*self, world.surrounding_spec(*tile_x as int, *tile_y as int), bg)
                    && r == Ok::<SpriteKey, TileContextError>(
                    SpriteKey::Group(
                        (SpriteGroupPaletteKey {
                            foreground: self.foreground,
                            background: bg,
                            sg: group.group,
                            sg_index: group.index,
                        }),
                    ),
                )),
            (self.nine is None && self.sid is None && self.group is None) ==> exists|
                bg: PaletteName,
            |
                background_choice(*self, world.surrounding_spec(*tile_x as int, *tile_y as int), bg)
                    && r == Ok::<SpriteKey, TileContextError>(
                    SpriteKey::Specific(
                        (SpritePaletteKey {
                            foreground: self.foreground,
                            background: bg,
                            sid: SpriteId::Empty,
                        }),
                    ),
                ),
    {
        if let Some(nine) = &self.nine {
            let surrounding = world.get_surrounding(tile_x, tile_y);
            let bg = match &self.background {
                Some(b) => *b,
                None => get_surrounding_bg(&surrounding),
            };
            proof {
                assert(background_choice(
                    *self,
                    world.surrounding_spec(*tile_x as int, *tile_y as int),
                    bg,
                ));
            }
            let dir = match NineSliceDir::get_dir_for_nine_tile(&surrounding, &nine.group) {
                Ok(d) => d,
                Err(e) => {
                    return Err(e);
                },
            };
            return Ok(
                SpriteKey::Nine(
                    SpriteNinePaletteKey::new(self.foreground, bg, nine.group, nine.index, dir),
                ),
            );
        }
        let surrounding = world.get_surrounding(tile_x, tile_y);
        let bg = match &self.background {
            Some(b) => *b,
            None => get_surrounding_bg(&surrounding),
        };
        proof {
            assert(background_choice(
                *self,
                world.surrounding_spec(*tile_x as int, *tile_y as int),
                bg,
            ));
        }
        if let Some(sid) = &self.sid {
            return Ok(SpriteKey::Specific(SpritePaletteKey::new(*sid, self.foreground, bg)));
        }
        if let Some(group) = &self.group {
            return Ok(
                SpriteKey::Group(
                    SpriteGroupPaletteKey::new(self.foreground, bg, group.group, group.index),
                ),
            );
        }
        Ok(SpriteKey::Specific(SpritePaletteKey::new(SpriteId::Empty, self.foreground, bg)))
    }
}

/// What a click on the world hit.
#[derive(Debug, PartialEq, Eq, Clone, Copy)]
pub enum Hit {
    Tile((usize, usize)),
}

/// The hit a click produces: the hovered grid cell, when the pointer was
/// pressed over a cell that holds a tile.
pub fn check_hit(
    world: &World,
    mouse_pressed: bool,
    mouse_world_px: Option<(usize, usize)>,
    mouse_grid: Option<(usize, usize)>,
) -> (r: Option<Hit>)
    requires
        world.wf(),
        mouse_grid matches Some(g) ==> g.0 < world.width && g.1 < world.height,
    ensures
        !mouse_pressed ==> r is None,
        mouse_world_px is None ==> r is None,
        mouse_grid is None ==> r is None,
        mouse_grid matches Some(g) ==> ((mouse_pressed && mouse_world_px is Some) ==> r == (
        if world.tile_at_spec(g.0 as int, g.1 as int) is Some {
            Some(Hit::Tile(g))
        } else {
            None::<Hit>
        })),
{
    if !mouse_pressed || mouse_world_px.is_none() || mouse_grid.is_none() {
        return None;
    }
    if let Some((x, y)) = mouse_grid {
        if let Some(_) = world.get_tile(&x, &y) {
            return Some(Hit::Tile((x, y)));
        }
    }
    None
}

/// How `handle_hit` repaints the grid: the struck cell's tile, if any,
/// has both its palettes replaced; every other cell is untouched.
pub open spec fn repainted(w0: World, w1: World, x: int, y: int, pal: PaletteName) -> bool {
    let i = y * w0.width + x;
    &&& w1.tiles@.len() == w0.tiles@.len()
    &&& forall|j: int| 0 <= j < w0.tiles@.len() && j != i ==> w1.tiles@[j] == w0.tiles@[j]
    &&& w1.tiles@[i] == match w0.tiles@[i] {
        Some(t) => Some(
            Tile {
                sprite_key: t.sprite_key.with_palettes(pal, pal),
                draw_rect: t.draw_rect,
                x: t.x,
                y: t.y,
            },
        ),
        None => None::<Tile>,
    }
}

/// Repaints the struck tile's foreground and background to the selected
/// palette.
pub fn handle_hit(hit: Hit, selected_palette: &PaletteName, world: &mut World)
    requires
        old(world).wf(),
        hit matches Hit::Tile(pos) ==> pos.0 < old(world).width && pos.1 < old(world).height,
    ensures
        final(world).wf(),
        final(world).width == old(world).width,
        final(world).height == old(world).height,
        hit matches Hit::Tile(pos) ==> repainted(
            *old(world),
            *final(world),
            pos.0 as int,
            pos.1 as int,
            *selected_palette,
        ),
{
    match hit {
        Hit::Tile((x, y)) => {
            proof {
                assert(y * world.width + x < world.width * world.height) by (nonlinear_arith)
                    requires
                        x < world.width,
                        y < world.height,
                ;
            }
            let i = xy_to_i(&world.width, &x, &y);
            if let Some(tile) = world.tiles[i] {
                let mut s_key = tile.get_sprite_key().clone();
                s_key.set_palettes(*selected_palette, *selected_palette);
                let mut repainted_tile = tile;
                repainted_tile.set_visual(s_key);
                world.tiles[i] = Some(repainted_tile);
            }
        },
    }
}

} // verus!
