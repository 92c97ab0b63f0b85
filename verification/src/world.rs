use vstd::prelude::*;

use crate::bitmap::{Bitmap, Rgba};
use crate::math::{i_to_xy, xy_to_i};
use crate::palette::PaletteName;
use crate::sprite::{clr_id_of, clr_to_sid, clr_to_sid_spec, SpriteClrId, SpriteId};
use crate::tile::{tile_at, Tile};

verus! {

/// Edge length of one tile, in world pixels.
pub const TILE_SIZE: usize = 16;

/// The alpha values that partition source-image pixels by what they
/// encode: a sprite-group member, a nine-slice-group member, or a specific
/// sprite.
#[derive(Debug, Clone, Copy, PartialEq, Eq, Structural)]
pub enum WorldPixelAlpha {
    Trees,
    Mounds,
    Decorations,
    NineTrees,
    NineMounds,
    NineWater,
    Sprite,
}

impl WorldPixelAlpha {
    /// The alpha channel value this marker stands for.
    pub fn alpha(&self) -> (r: u8)
        ensures
            r == match *self {
                WorldPixelAlpha::Trees => 150u8,
                WorldPixelAlpha::Mounds => 160u8,
                WorldPixelAlpha::Decorations => 170u8,
                WorldPixelAlpha::NineTrees => 200u8,
                WorldPixelAlpha::NineMounds => 230u8,
                WorldPixelAlpha::NineWater => 250u8,
                WorldPixelAlpha::Sprite => 255u8,
            },
    {
        match self {
            WorldPixelAlpha::Trees => 150,
            WorldPixelAlpha::Mounds => 160,
            WorldPixelAlpha::Decorations => 170,
            WorldPixelAlpha::NineTrees => 200,
            WorldPixelAlpha::NineMounds => 230,
            WorldPixelAlpha::NineWater => 250,
            WorldPixelAlpha::Sprite => 255,
        }
    }
}

/// The tile a source pixel decodes to, for the cell at `(x, y)`. A fully
/// opaque pixel is the standard placeholder tile; any other alpha value
/// routes the channels through the tile-color lookup, where a known
/// identifier yields its specific sprite and an unknown one yields an
/// empty cell.
pub open spec fn decoded_tile(p: Rgba, x: usize, y: usize) -> Option<Tile> {
    if p.a == 255 {
        Some(tile_at(x, y, SpriteId::Missing, PaletteName::White))
    } else {
        match clr_id_of(p) {
            Some(clr) => Some(tile_at(x, y, clr_to_sid_spec(clr), PaletteName::White)),
            None => None,
        }
    }
}

/// A pixel that is fully opaque always decodes to the placeholder tile,
/// never to an empty cell.
pub proof fn lemma_opaque_pixel_decodes_to_placeholder(p: Rgba, x: usize, y: usize)
    requires
        p.a == 255,
    ensures
        decoded_tile(p, x, y) == Some(tile_at(x, y, SpriteId::Missing, PaletteName::White)),
{
}

/// The world grid: one optional tile per cell, in row-major order.
#[derive(Debug)]
pub struct World {
    pub tiles: Vec<Option<Tile>>,
    pub width: usize,
    pub height: usize,
}

impl World {
    /// The grid is well formed when it holds exactly one cell per
    /// coordinate pair.
    pub open spec fn wf(self) -> bool {
        self.tiles.len() == self.width * self.height
    }

    /// The cell at grid coordinates `(x, y)`.
    pub open spec fn tile_at_spec(self, x: int, y: int) -> Option<Tile> {
        self.tiles@[y * self.width + x]
    }

    /// Decodes a source bitmap into the tile grid, pixel by pixel.
    pub fn new(img: Bitmap) -> (r: World)
        requires
            img.wf(),
            img.width * TILE_SIZE <= usize::MAX,
            img.height * TILE_SIZE <= usize::MAX,
        ensures
            r.wf(),
            r.width == img.width,
            r.height == img.height,
            r.tiles@.len() == img.pixels@.len(),
            forall|j: int|
                0 <= j < img.pixels@.len() ==> #[trigger] r.tiles@[j] == decoded_tile(
                    img.pixels@[j],
                    ((j % (img.width as int)) as usize),
                    ((j / (img.width as int)) as usize),
                ),
    {
        let w = img.width;
        let h = img.height;
        let n = img.pixels.len();
        let mut tiles: Vec<Option<Tile>> = Vec::new();
        for i in 0..n
            invariant
                n == img.pixels@.len(),
                n == w * h,
                w == img.width,
                h == img.height,
                w * TILE_SIZE <= usize::MAX,
                h * TILE_SIZE <= usize::MAX,
                tiles@.len() == i,
                forall|j: int|
                    0 <= j < i ==> #[trigger] tiles@[j] == decoded_tile(
                        img.pixels@[j],
                        ((j % (w as int)) as usize),
                        ((j / (w as int)) as usize),
                    ),
        {
            proof {
                if w == 0 {
                    assert(w * h == 0) by (nonlinear_arith)
                        requires
                            w == 0,
                    ;
                }
                assert(i < w * h);
                vstd::arithmetic::div_mod::lemma_multiply_divide_lt(i as int, w as int, h as int);
            }
            let (x, y) = i_to_xy(&w, &i);
            proof {
                assert(x < w);
                assert(y < h);
                assert((x + 1) * TILE_SIZE <= w * TILE_SIZE);
                assert((y + 1) * TILE_SIZE <= h * TILE_SIZE);
            }
            let px = img.pixels[i];
            let t: Option<Tile> = if px.a != 255 {
                match SpriteClrId::from_rgba(&px) {
                    Some(clr) => Some(Tile::new(x, y, clr_to_sid(clr), PaletteName::White)),
                    None => None,
                }
            } else {
                Some(Tile::new(x, y, SpriteId::Missing, PaletteName::White))
            };
            tiles.push(t);
        }
        World { tiles, width: w, height: h }
    }

    /// The tile at grid coordinates `(x, y)`, if the cell holds one.
    pub fn get_tile(&self, x: &usize, y: &usize) -> (r: Option<&Tile>)
        requires
            self.wf(),
            *x < self.width,
            *y < self.height,
        ensures
            (r is Some) <==> (self.tile_at_spec(*x as int, *y as int) is Some),
            r matches Some(t) ==> self.tile_at_spec(*x as int, *y as int) == Some(*t),
    {
        proof {
            assert(*y * self.width + *x < self.width * self.height) by (nonlinear_arith)
                requires
                    *x < self.width,
                    *y < self.height,
            ;
        }
        let i = xy_to_i(&self.width, x, y);
        match &self.tiles[i] {
            Some(t) => Some(t),
            None => None,
        }
    }

    /// The cell's contents, by value.
    fn tile_cell(&self, x: usize, y: usize) -> (r: Option<Tile>)
        requires
            self.wf(),
            x < self.width,
            y < self.height,
        ensures
            r == self.tile_at_spec(x as int, y as int),
    {
        proof {
            assert(y * self.width + x < self.width * self.height) by (nonlinear_arith)
                requires
                    x < self.width,
                    y < self.height,
            ;
        }
        let i = xy_to_i(&self.width, &x, &y);
        self.tiles[i]
    }

    /// The neighborhood context of a cell: for an interior cell, the full
    /// 3-by-3 block around it in row-major order (9 entries); for a cell
    /// on the grid edge, its four cardinal neighbors as above, left,
    /// right, below, with an empty entry where the grid ends (4 entries).
    pub open spec fn surrounding_spec(self, x: int, y: int) -> Seq<Option<Tile>> {
        if 1 <= x && x + 1 < self.width && 1 <= y && y + 1 < self.height {
            seq![
                self.tile_at_spec(x - 1, y - 1),
                self.tile_at_spec(x, y - 1),
                self.tile_at_spec(x + 1, y - 1),
                self.tile_at_spec(x - 1, y),
                self.tile_at_spec(x, y),
                self.tile_at_spec(x + 1, y),
                self.tile_at_spec(x - 1, y + 1),
                self.tile_at_spec(x, y + 1),
                self.tile_at_spec(x + 1, y + 1),
            ]
        } else {
            seq![
                if y > 0 {
                    self.tile_at_spec(x, y - 1)
                } else {
                    None
                },
                if x > 0 {
                    self.tile_at_spec(x - 1, y)
                } else {
                    None
                },
                if x + 1 < self.width {
                    self.tile_at_spec(x + 1, y)
                } else {
                    None
                },
                if y + 1 < self.height {
                    self.tile_at_spec(x, y + 1)
                } else {
                    None
                },
            ]
        }
    }

    /// Collects the neighborhood context of the cell at `(x, y)`.
    pub fn get_surrounding(&self, x: &usize, y: &usize) -> (r: Vec<Option<Tile>>)
        requires
            self.wf(),
            *x < self.width,
            *y < self.height,
        ensures
            r@ == self.surrounding_spec(*x as int, *y as int),
    {
        let x = *x;
        let y = *y;
        let mut r: Vec<Option<Tile>> = Vec::new();
        if 1 <= x && x + 1 < self.width && 1 <= y && y + 1 < self.height {
            r.push(self.tile_cell(x - 1, y - 1));
            r.push(self.tile_cell(x, y - 1));
            r.push(self.tile_cell(x + 1, y - 1));
            r.push(self.tile_cell(x - 1, y));
            r.push(self.tile_cell(x, y));
            r.push(self.tile_cell(x + 1, y));
            r.push(self.tile_cell(x - 1, y + 1));
            r.push(self.tile_cell(x, y + 1));
            r.push(self.tile_cell(x + 1, y + 1));
        } else {
            r.push(
                if y > 0 {
                    self.tile_cell(x, y - 1)
                } else {
                    None
                },
            );
            r.push(
                if x > 0 {
                    self.tile_cell(x - 1, y)
                } else {
                    None
                },
            );
            r.push(
                if x + 1 < self.width {
                    self.tile_cell(x + 1, y)
                } else {
                    None
                },
            );
            r.push(
                if y + 1 < self.height {
                    self.tile_cell(x, y + 1)
                } else {
                    None
                },
            );
        }
        proof {
            assert(r@ =~= self.surrounding_spec(x as int, y as int));
        }
        r
    }

    /// Grid coordinates of a world pixel: the explicit pixel when one is
    /// given, otherwise the cached mouse pixel, otherwise nothing.
    pub fn px_to_grid(
        &self,
        world_px: Option<&(usize, usize)>,
        mouse_world_px: Option<(usize, usize)>,
    ) -> (r: Option<(usize, usize)>)
        ensures
            r == match world_px {
                Some(px) => Some((px.0 / TILE_SIZE, px.1 / TILE_SIZE)),
                None => match mouse_world_px {
                    Some(px) => Some((px.0 / TILE_SIZE, px.1 / TILE_SIZE)),
                    None => None::<(usize, usize)>,
                },
            },
    {
        if let Some(px) = world_px {
            return Some((px.0 / TILE_SIZE, px.1 / TILE_SIZE));
        } else if let Some(px) = mouse_world_px {
            return Some((px.0 / TILE_SIZE, px.1 / TILE_SIZE));
        }
        None
    }
}

} // verus!
