use vstd::prelude::*;

use crate::bitmap::Rgba;
use crate::palette::PaletteName;
use crate::tile::Tile;

verus! {

/// The nine directional pieces of a nine-slice sprite: four corners, four
/// edges, and the center.
#[derive(Debug, PartialEq, Clone, Copy, Hash, Eq, Structural)]
pub enum NineSliceDir {
    LeftUp,
    Up,
    RightUp,
    Left,
    Center,
    Right,
    LeftDown,
    Down,
    RightDown,
}

/// Why a nine-slice direction could not be resolved from a neighbor list.
#[derive(Debug, PartialEq, Eq, Clone, Copy, Structural)]
pub enum TileContextError {
    /// The neighbor list had a length other than 9 or 4.
    InvalidNeighborCount,
    /// The cardinal membership flags match no entry of the direction table.
    UndefinedDirection,
}

/// The direction table: which piece to draw, given whether the neighbor
/// above, left of, right of and below the cell belongs to the same
/// nine-slice group. Only the listed combinations are defined; the rest
/// yield no direction. The final entry is shadowed by the second and is
/// kept as the table was laid out.
pub open spec fn dir_for_flags(above: bool, left: bool, right: bool, below: bool) -> Option<
    NineSliceDir,
> {
    if above && left && right && below {
        Some(NineSliceDir::Center)
    } else if !above && !left && right && below {
        Some(NineSliceDir::LeftUp)
    } else if !above && !left && !right && below {
        Some(NineSliceDir::Up)
    } else if !above && left && !right && below {
        Some(NineSliceDir::RightUp)
    } else if !above && left && !right && !below {
        Some(NineSliceDir::Right)
    } else if above && left && !right && !below {
        Some(NineSliceDir::RightDown)
    } else if above && !left && !right && !below {
        Some(NineSliceDir::Down)
    } else if above && !left && right && !below {
        Some(NineSliceDir::LeftDown)
    } else if !above && !left && right && below {
        Some(NineSliceDir::Left)
    } else {
        None
    }
}

/// Whether a neighbor cell holds a tile drawn from the given nine-slice
/// group.
pub open spec fn in_nine_group(t: Option<Tile>, g: SpriteNineGroup) -> bool {
    match t {
        Some(tile) => match tile.sprite_key {
            SpriteKey::Nine(nine) => nine.sg == g,
            _ => false,
        },
        None => false,
    }
}

/// The direction table applied to a neighbor list. A list of 9 is the full
/// row-major 3-by-3 block around the cell, whose cardinal neighbors sit at
/// indices 1, 3, 5 and 7; a list of 4 holds the cardinal neighbors
/// directly, as above, left, right, below. Any other length is a usage
/// error.
pub open spec fn nine_tile_dir_spec(tiles: Seq<Option<Tile>>, g: SpriteNineGroup) -> Result<
    NineSliceDir,
    TileContextError,
> {
    if tiles.len() == 9 {
        flags_dir_spec(
            in_nine_group(tiles[1], g),
            in_nine_group(tiles[3], g),
            in_nine_group(tiles[5], g),
            in_nine_group(tiles[7], g),
        )
    } else if tiles.len() == 4 {
        flags_dir_spec(
            in_nine_group(tiles[0], g),
            in_nine_group(tiles[1], g),
            in_nine_group(tiles[2], g),
            in_nine_group(tiles[3], g),
        )
    } else {
        Err(TileContextError::InvalidNeighborCount)
    }
}

/// The direction table as a result: an undefined combination is an error.
pub open spec fn flags_dir_spec(above: bool, left: bool, right: bool, below: bool) -> Result<
    NineSliceDir,
    TileContextError,
> {
    match dir_for_flags(above, left, right, below) {
        Some(d) => Ok(d),
        None => Err(TileContextError::UndefinedDirection),
    }
}

/// Whether this neighbor holds a tile of the given nine-slice group.
fn tile_in_group(t: &Option<Tile>, nine_group: &SpriteNineGroup) -> (b: bool)
    ensures
        b == in_nine_group(*t, *nine_group),
{
    match t {
        Some(tile) => match &tile.sprite_key {
            SpriteKey::Nine(nine) => nine.sg == *nine_group,
            _ => false,
        },
        None => false,
    }
}

impl NineSliceDir {
    /// Resolves which nine-slice piece a cell should draw, from which of
    /// its four cardinal neighbors belong to the same group. The neighbor
    /// list is either the full row-major 3-by-3 block (9 entries) or the
    /// four cardinal neighbors (4 entries); any other length is a usage
    /// error, as is a flag combination outside the direction table.
    pub fn get_dir_for_nine_tile(tiles: &Vec<Option<Tile>>, nine_group: &SpriteNineGroup) -> (r:
        Result<NineSliceDir, TileContextError>)
        ensures
            r == nine_tile_dir_spec(tiles@, *nine_group),
    {
        let indexes: [usize; 4] = if tiles.len() == 9 {
            [1, 3, 5, 7]
        } else if tiles.len() == 4 {
            [0, 1, 2, 3]
        } else {
            return Err(TileContextError::InvalidNeighborCount);
        };

        let above = tile_in_group(&tiles[indexes[0]], nine_group);
        let left = tile_in_group(&tiles[indexes[1]], nine_group);
        let right = tile_in_group(&tiles[indexes[2]], nine_group);
        let below = tile_in_group(&tiles[indexes[3]], nine_group);

        if above && left && right && below {
            return Ok(NineSliceDir::Center);
        }
        if !above && !left && right && below {
            return Ok(NineSliceDir::LeftUp);
        }
        if !above && !left && !right && below {
            return Ok(NineSliceDir::Up);
        }
        if !above && left && !right && below {
            return Ok(NineSliceDir::RightUp);
        }
        if !above && left && !right && !below {
            return Ok(NineSliceDir::Right);
        }
        if above && left && !right && !below {
            return Ok(NineSliceDir::RightDown);
        }
        if above && !left && !right && !below {
            return Ok(NineSliceDir::Down);
        }
        if above && !left && right && !below {
            return Ok(NineSliceDir::LeftDown);
        }
        if !above && !left && right && below {
            return Ok(NineSliceDir::Left);
        }
        Err(TileContextError::UndefinedDirection)
    }
}

/// The nine-slice sprite groups.
#[derive(Debug, PartialEq, Clone, Copy, Hash, Eq, Structural)]
pub enum SpriteNineGroup {
    Trees,
    Mounds,
}

/// The plain sprite groups.
#[derive(Debug, PartialEq, Clone, Copy, Hash, Eq, Structural)]
pub enum SpriteGroup {
    Tree,
    Mound,
}

/// The specific sprites.
#[derive(Debug, PartialEq, Clone, Copy, Hash, Eq, Structural)]
pub enum SpriteId {
    Empty,
    Missing,
}

/// The known tile color identifiers, named `C{r}_{g}_{b}_{a}` with each
/// channel as three zero-padded decimal digits.
#[derive(Debug, PartialEq, Clone, Copy, Eq, Structural)]
pub enum SpriteClrId {
    C000_000_000_000,
    C255_255_255_000,
}

/// The color identifier a pixel's channels spell, if it is a known one.
pub open spec fn clr_id_of(p: Rgba) -> Option<SpriteClrId> {
    if p.r == 0 && p.g == 0 && p.b == 0 && p.a == 0 {
        Some(SpriteClrId::C000_000_000_000)
    } else if p.r == 255 && p.g == 255 && p.b == 255 && p.a == 0 {
        Some(SpriteClrId::C255_255_255_000)
    } else {
        None
    }
}

impl SpriteClrId {
    /// Looks a pixel's channels up against the closed set of known tile
    /// color identifiers.
    pub fn from_rgba(p: &Rgba) -> (r: Option<SpriteClrId>)
        ensures
            r == clr_id_of(*p),
    {
        if p.r == 0 && p.g == 0 && p.b == 0 && p.a == 0 {
            Some(SpriteClrId::C000_000_000_000)
        } else if p.r == 255 && p.g == 255 && p.b == 255 && p.a == 0 {
            Some(SpriteClrId::C255_255_255_000)
        } else {
            None
        }
    }
}

/// The sprite that a color identifier stands for: identifiers and sprites
/// correspond position for position.
pub open spec fn clr_to_sid_spec(clr: SpriteClrId) -> SpriteId {
    match clr {
        SpriteClrId::C000_000_000_000 => SpriteId::Empty,
        SpriteClrId::C255_255_255_000 => SpriteId::Missing,
    }
}

/// The sprite that a color identifier stands for.
pub fn clr_to_sid(clr: SpriteClrId) -> (r: SpriteId)
    ensures
        r == clr_to_sid_spec(clr),
{
    match clr {
        SpriteClrId::C000_000_000_000 => SpriteId::Empty,
        SpriteClrId::C255_255_255_000 => SpriteId::Missing,
    }
}

/// What a tile draws: a specific sprite, one member of a sprite group, or
/// one piece of a nine-slice group, each with its two palettes.
#[derive(Debug, PartialEq, Hash, Eq, Clone, Copy, Structural)]
pub enum SpriteKey {
    Specific(SpritePaletteKey),
    Nine(SpriteNinePaletteKey),
    Group(SpriteGroupPaletteKey),
}

impl SpriteKey {
    /// This key with both palettes replaced.
    pub open spec fn with_palettes(self, foreground: PaletteName, background: PaletteName) -> SpriteKey {
        match self {
            SpriteKey::Specific(s) => SpriteKey::Specific(
                SpritePaletteKey { foreground, background, sid: s.sid },
            ),
            SpriteKey::Group(g) => SpriteKey::Group(
                SpriteGroupPaletteKey { foreground, background, sg: g.sg, sg_index: g.sg_index },
            ),
            SpriteKey::Nine(n) => SpriteKey::Nine(
                SpriteNinePaletteKey {
                    nine_dir: n.nine_dir,
                    foreground,
                    background,
                    sg_index: n.sg_index,
                    sg: n.sg,
                },
            ),
        }
    }

    /// The background palette of this key.
    pub open spec fn bg_spec(self) -> PaletteName {
        match self {
            SpriteKey::Specific(s) => s.background,
            SpriteKey::Group(g) => g.background,
            SpriteKey::Nine(n) => n.background,
        }
    }

    /// Replaces both palettes of the key, whichever variant it is.
    pub fn set_palettes(&mut self, foreground: PaletteName, background: PaletteName)
        ensures
            *final(self) == (*old(self)).with_palettes(foreground, background),
    {
        match self {
            SpriteKey::Specific(s) => {
                s.foreground = foreground;
                s.background = background;
            },
            SpriteKey::Group(g) => {
                g.foreground = foreground;
                g.background = background;
            },
            SpriteKey::Nine(n) => {
                n.foreground = foreground;
                n.background = background;
            },
        }
    }

    /// The background palette of the key.
    pub fn get_bg(&self) -> (r: &PaletteName)
        ensures
            *r == self.bg_spec(),
    {
        match self {
            SpriteKey::Specific(s) => &s.background,
            SpriteKey::Group(g) => &g.background,
            SpriteKey::Nine(n) => &n.background,
        }
    }
}

/// A specific sprite with its palettes.
#[derive(Debug, PartialEq, Hash, Eq, Clone, Copy, Structural)]
pub struct SpritePaletteKey {
    pub foreground: PaletteName,
    pub background: PaletteName,
    pub sid: SpriteId,
}

impl SpritePaletteKey {
    pub fn new(sid: SpriteId, foreground: PaletteName, background: PaletteName) -> (r:
        SpritePaletteKey)
        ensures
            r == (SpritePaletteKey { foreground, background, sid }),
    {
        SpritePaletteKey { foreground, background, sid }
    }
}

/// A member of a sprite group with its palettes.
#[derive(Debug, PartialEq, Hash, Eq, Clone, Copy, Structural)]
pub struct SpriteGroupPaletteKey {
    pub foreground: PaletteName,
    pub background: PaletteName,
    pub sg: SpriteGroup,
    pub sg_index: u8,
}

impl SpriteGroupPaletteKey {
    pub fn new(foreground: PaletteName, background: PaletteName, sg: SpriteGroup, sg_index: u8) -> (r:
        SpriteGroupPaletteKey)
        ensures
            r == (SpriteGroupPaletteKey { foreground, background, sg, sg_index }),
    {
        SpriteGroupPaletteKey { foreground, background, sg, sg_index }
    }
}

/// One piece of a nine-slice group with its palettes.
#[derive(Debug, PartialEq, Hash, Eq, Clone, Copy, Structural)]
pub struct SpriteNinePaletteKey {
    pub nine_dir: NineSliceDir,
    pub foreground: PaletteName,
    pub background: PaletteName,
    pub sg_index: u8,
    pub sg: SpriteNineGroup,
}

impl SpriteNinePaletteKey {
    pub fn new(
        foreground: PaletteName,
        background: PaletteName,
        sg: SpriteNineGroup,
        sg_index: u8,
        nine_dir: NineSliceDir,
    ) -> (r: SpriteNinePaletteKey)
        ensures
            r == (SpriteNinePaletteKey { nine_dir, foreground, background, sg_index, sg }),
    {
        SpriteNinePaletteKey { foreground, background, sg_index, sg, nine_dir }
    }
}

} // verus!
