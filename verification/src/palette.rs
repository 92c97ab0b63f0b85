use vstd::prelude::*;

use crate::bitmap::{rgba, Bitmap, Rgba};

verus! {

/// The six named palettes.
#[derive(Debug, Clone, Copy, PartialEq, Eq, Hash, Structural)]
pub enum PaletteName {
    White,
    Blue,
    Green,
    Red,
    Brown,
    Yellow,
}

/// The numeric code of a palette name, as stored in a neighbor-palette
/// tally.
pub open spec fn palette_code_spec(name: PaletteName) -> u8 {
    match name {
        PaletteName::White => 0,
        PaletteName::Blue => 40,
        PaletteName::Green => 80,
        PaletteName::Red => 120,
        PaletteName::Brown => 160,
        PaletteName::Yellow => 200,
    }
}

/// The palette name with the given numeric code, if any.
pub open spec fn palette_from_code(v: u8) -> Option<PaletteName> {
    if v == 0 {
        Some(PaletteName::White)
    } else if v == 40 {
        Some(PaletteName::Blue)
    } else if v == 80 {
        Some(PaletteName::Green)
    } else if v == 120 {
        Some(PaletteName::Red)
    } else if v == 160 {
        Some(PaletteName::Brown)
    } else if v == 200 {
        Some(PaletteName::Yellow)
    } else {
        None
    }
}

impl PaletteName {
    /// The numeric code of this palette name.
    pub fn code(&self) -> (r: u8)
        ensures
            r == palette_code_spec(*self),
    {
        match self {
            PaletteName::White => 0,
            PaletteName::Blue => 40,
            PaletteName::Green => 80,
            PaletteName::Red => 120,
            PaletteName::Brown => 160,
            PaletteName::Yellow => 200,
        }
    }

    /// The palette name with the given numeric code, if any.
    pub fn try_from(v: u8) -> (r: Option<PaletteName>)
        ensures
            r == palette_from_code(v),
    {
        match v {
            0 => Some(PaletteName::White),
            40 => Some(PaletteName::Blue),
            80 => Some(PaletteName::Green),
            120 => Some(PaletteName::Red),
            160 => Some(PaletteName::Brown),
            200 => Some(PaletteName::Yellow),
            _ => None,
        }
    }
}

/// A palette: one color per shade bucket, from the lightest bucket at
/// index 0 down to the darkest at index 13.
#[derive(Debug, Clone, Copy)]
pub struct Palette {
    pub hues: [Rgba; 14],
}

/// Which of the 14 shade buckets a source channel value falls in.
/// 255 is its own bucket; below that, each bucket spans 20 values, down to
/// the darkest bucket, which spans 0 through 14.
pub open spec fn hue_bucket(v: u8) -> int {
    if v == 255 {
        0
    } else if v >= 235 {
        1
    } else if v >= 215 {
        2
    } else if v >= 195 {
        3
    } else if v >= 175 {
        4
    } else if v >= 155 {
        5
    } else if v >= 135 {
        6
    } else if v >= 115 {
        7
    } else if v >= 95 {
        8
    } else if v >= 75 {
        9
    } else if v >= 55 {
        10
    } else if v >= 35 {
        11
    } else if v >= 15 {
        12
    } else {
        13
    }
}

impl Palette {
    /// The palette color for a source channel value: the table entry of the
    /// value's shade bucket.
    pub fn get_hue(&self, v: u8) -> (r: Rgba)
        ensures
            r == self.hues@[hue_bucket(v)],
    {
        if v == 255 {
            self.hues[0]
        } else if v >= 235 {
            self.hues[1]
        } else if v >= 215 {
            self.hues[2]
        } else if v >= 195 {
            self.hues[3]
        } else if v >= 175 {
            self.hues[4]
        } else if v >= 155 {
            self.hues[5]
        } else if v >= 135 {
            self.hues[6]
        } else if v >= 115 {
            self.hues[7]
        } else if v >= 95 {
            self.hues[8]
        } else if v >= 75 {
            self.hues[9]
        } else if v >= 55 {
            self.hues[10]
        } else if v >= 35 {
            self.hues[11]
        } else if v >= 15 {
            self.hues[12]
        } else {
            self.hues[13]
        }
    }
}

/// The shade table of the blue palette.
pub open spec fn blue_hues() -> Seq<Rgba> {
    seq![
        rgba(177, 226, 255, 255),
        rgba(147, 185, 229, 255),
        rgba(101, 145, 229, 255),
        rgba(0, 99, 205, 255),
        rgba(58, 75, 175, 255),
        rgba(0, 0, 160, 255),
        rgba(0, 0, 149, 255),
        rgba(0, 0, 135, 255),
        rgba(0, 0, 124, 255),
        rgba(0, 0, 113, 255),
        rgba(0, 0, 106, 255),
        rgba(0, 0, 71, 255),
        rgba(0, 0, 50, 255),
        rgba(0, 0, 25, 255),
    ]
}

/// The shade table of the green palette.
pub open spec fn green_hues() -> Seq<Rgba> {
    seq![
        rgba(177, 255, 226, 255),
        rgba(147, 229, 185, 255),
        rgba(101, 229, 145, 255),
        rgba(0, 205, 99, 255),
        rgba(58, 175, 75, 255),
        rgba(0, 160, 0, 255),
        rgba(0, 149, 0, 255),
        rgba(0, 135, 0, 255),
        rgba(0, 124, 0, 255),
        rgba(0, 113, 0, 255),
        rgba(0, 106, 0, 255),
        rgba(0, 71, 0, 255),
        rgba(0, 50, 0, 255),
        rgba(0, 25, 0, 255),
    ]
}

/// The shade table of the red palette.
pub open spec fn red_hues() -> Seq<Rgba> {
    seq![
        rgba(255, 177, 226, 255),
        rgba(229, 147, 185, 255),
        rgba(229, 101, 145, 255),
        rgba(205, 0, 99, 255),
        rgba(175, 58, 75, 255),
        rgba(160, 0, 0, 255),
        rgba(149, 0, 0, 255),
        rgba(135, 0, 0, 255),
        rgba(124, 0, 0, 255),
        rgba(113, 0, 0, 255),
        rgba(106, 0, 0, 255),
        rgba(71, 0, 0, 255),
        rgba(50, 0, 0, 255),
        rgba(25, 0, 0, 255),
    ]
}

/// The shade table of the white palette.
pub open spec fn white_hues() -> Seq<Rgba> {
    seq![
        rgba(255, 255, 255, 255),
        rgba(239, 239, 239, 255),
        rgba(229, 229, 229, 255),
        rgba(205, 205, 205, 255),
        rgba(175, 175, 175, 255),
        rgba(160, 160, 160, 255),
        rgba(149, 149, 149, 255),
        rgba(135, 135, 135, 255),
        rgba(124, 124, 124, 255),
        rgba(113, 113, 113, 255),
        rgba(106, 106, 106, 255),
        rgba(71, 71, 71, 255),
        rgba(50, 50, 50, 255),
        rgba(25, 25, 25, 255),
    ]
}

/// The shade table of the brown palette.
pub open spec fn brown_hues() -> Seq<Rgba> {
    seq![
        rgba(232, 179, 179, 255),
        rgba(173, 136, 136, 255),
        rgba(159, 112, 112, 255),
        rgba(128, 82, 82, 255),
        rgba(137, 66, 66, 255),
        rgba(118, 64, 64, 255),
        rgba(105, 51, 51, 255),
        rgba(91, 43, 43, 255),
        rgba(87, 33, 33, 255),
        rgba(73, 22, 22, 255),
        rgba(82, 32, 32, 255),
        rgba(73, 25, 25, 255),
        rgba(55, 15, 15, 255),
        rgba(36, 10, 10, 255),
    ]
}

/// The shade table of the yellow palette.
pub open spec fn yellow_hues() -> Seq<Rgba> {
    seq![
        rgba(255, 249, 224, 255),
        rgba(255, 254, 192, 255),
        rgba(252, 251, 123, 255),
        rgba(232, 226, 126, 255),
        rgba(246, 238, 102, 255),
        rgba(245, 250, 61, 255),
        rgba(241, 232, 72, 255),
        rgba(246, 233, 28, 255),
        rgba(236, 223, 7, 255),
        rgba(199, 188, 3, 255),
        rgba(162, 153, 7, 255),
        rgba(130, 112, 6, 255),
        rgba(88, 83, 6, 255),
        rgba(65, 61, 0, 255),
    ]
}

/// The shade table of a named palette.
pub open spec fn palette_hues(name: PaletteName) -> Seq<Rgba> {
    match name {
        PaletteName::White => white_hues(),
        PaletteName::Blue => blue_hues(),
        PaletteName::Green => green_hues(),
        PaletteName::Red => red_hues(),
        PaletteName::Brown => brown_hues(),
        PaletteName::Yellow => yellow_hues(),
    }
}

fn blue_palette() -> (p: Palette)
    ensures
        p.hues@ == blue_hues(),
{
    let hues: [Rgba; 14] = [
        Rgba { r: 177, g: 226, b: 255, a: 255 },
        Rgba { r: 147, g: 185, b: 229, a: 255 },
        Rgba { r: 101, g: 145, b: 229, a: 255 },
        Rgba { r: 0, g: 99, b: 205, a: 255 },
        Rgba { r: 58, g: 75, b: 175, a: 255 },
        Rgba { r: 0, g: 0, b: 160, a: 255 },
        Rgba { r: 0, g: 0, b: 149, a: 255 },
        Rgba { r: 0, g: 0, b: 135, a: 255 },
        Rgba { r: 0, g: 0, b: 124, a: 255 },
        Rgba { r: 0, g: 0, b: 113, a: 255 },
        Rgba { r: 0, g: 0, b: 106, a: 255 },
        Rgba { r: 0, g: 0, b: 71, a: 255 },
        Rgba { r: 0, g: 0, b: 50, a: 255 },
        Rgba { r: 0, g: 0, b: 25, a: 255 },
    ];
    assert(hues@ =~= blue_hues());
    Palette { hues }
}

fn green_palette() -> (p: Palette)
    ensures
        p.hues@ == green_hues(),
{
    let hues: [Rgba; 14] = [
        Rgba { r: 177, g: 255, b: 226, a: 255 },
        Rgba { r: 147, g: 229, b: 185, a: 255 },
        Rgba { r: 101, g: 229, b: 145, a: 255 },
        Rgba { r: 0, g: 205, b: 99, a: 255 },
        Rgba { r: 58, g: 175, b: 75, a: 255 },
        Rgba { r: 0, g: 160, b: 0, a: 255 },
        Rgba { r: 0, g: 149, b: 0, a: 255 },
        Rgba { r: 0, g: 135, b: 0, a: 255 },
        Rgba { r: 0, g: 124, b: 0, a: 255 },
        Rgba { r: 0, g: 113, b: 0, a: 255 },
        Rgba { r: 0, g: 106, b: 0, a: 255 },
        Rgba { r: 0, g: 71, b: 0, a: 255 },
        Rgba { r: 0, g: 50, b: 0, a: 255 },
        Rgba { r: 0, g: 25, b: 0, a: 255 },
    ];
    assert(hues@ =~= green_hues());
    Palette { hues }
}

fn red_palette() -> (p: Palette)
    ensures
        p.hues@ == red_hues(),
{
    let hues: [Rgba; 14] = [
        Rgba { r: 255, g: 177, b: 226, a: 255 },
        Rgba { r: 229, g: 147, b: 185, a: 255 },
        Rgba { r: 229, g: 101, b: 145, a: 255 },
        Rgba { r: 205, g: 0, b: 99, a: 255 },
        Rgba { r: 175, g: 58, b: 75, a: 255 },
        Rgba { r: 160, g: 0, b: 0, a: 255 },
        Rgba { r: 149, g: 0, b: 0, a: 255 },
        Rgba { r: 135, g: 0, b: 0, a: 255 },
        Rgba { r: 124, g: 0, b: 0, a: 255 },
        Rgba { r: 113, g: 0, b: 0, a: 255 },
        Rgba { r: 106, g: 0, b: 0, a: 255 },
        Rgba { r: 71, g: 0, b: 0, a: 255 },
        Rgba { r: 50, g: 0, b: 0, a: 255 },
        Rgba { r: 25, g: 0, b: 0, a: 255 },
    ];
    assert(hues@ =~= red_hues());
    Palette { hues }
}

fn white_palette() -> (p: Palette)
    ensures
        p.hues@ == white_hues(),
{
    let hues: [Rgba; 14] = [
        Rgba { r: 255, g: 255, b: 255, a: 255 },
        Rgba { r: 239, g: 239, b: 239, a: 255 },
        Rgba { r: 229, g: 229, b: 229, a: 255 },
        Rgba { r: 205, g: 205, b: 205, a: 255 },
        Rgba { r: 175, g: 175, b: 175, a: 255 },
        Rgba { r: 160, g: 160, b: 160, a: 255 },
        Rgba { r: 149, g: 149, b: 149, a: 255 },
        Rgba { r: 135, g: 135, b: 135, a: 255 },
        Rgba { r: 124, g: 124, b: 124, a: 255 },
        Rgba { r: 113, g: 113, b: 113, a: 255 },
        Rgba { r: 106, g: 106, b: 106, a: 255 },
        Rgba { r: 71, g: 71, b: 71, a: 255 },
        Rgba { r: 50, g: 50, b: 50, a: 255 },
        Rgba { r: 25, g: 25, b: 25, a: 255 },
    ];
    assert(hues@ =~= white_hues());
    Palette { hues }
}

fn brown_palette() -> (p: Palette)
    ensures
        p.hues@ == brown_hues(),
{
    let hues: [Rgba; 14] = [
        Rgba { r: 232, g: 179, b: 179, a: 255 },
        Rgba { r: 173, g: 136, b: 136, a: 255 },
        Rgba { r: 159, g: 112, b: 112, a: 255 },
        Rgba { r: 128, g: 82, b: 82, a: 255 },
        Rgba { r: 137, g: 66, b: 66, a: 255 },
        Rgba { r: 118, g: 64, b: 64, a: 255 },
        Rgba { r: 105, g: 51, b: 51, a: 255 },
        Rgba { r: 91, g: 43, b: 43, a: 255 },
        Rgba { r: 87, g: 33, b: 33, a: 255 },
        Rgba { r: 73, g: 22, b: 22, a: 255 },
        Rgba { r: 82, g: 32, b: 32, a: 255 },
        Rgba { r: 73, g: 25, b: 25, a: 255 },
        Rgba { r: 55, g: 15, b: 15, a: 255 },
        Rgba { r: 36, g: 10, b: 10, a: 255 },
    ];
    assert(hues@ =~= brown_hues());
    Palette { hues }
}

fn yellow_palette() -> (p: Palette)
    ensures
        p.hues@ == yellow_hues(),
{
    let hues: [Rgba; 14] = [
        Rgba { r: 255, g: 249, b: 224, a: 255 },
        Rgba { r: 255, g: 254, b: 192, a: 255 },
        Rgba { r: 252, g: 251, b: 123, a: 255 },
        Rgba { r: 232, g: 226, b: 126, a: 255 },
        Rgba { r: 246, g: 238, b: 102, a: 255 },
        Rgba { r: 245, g: 250, b: 61, a: 255 },
        Rgba { r: 241, g: 232, b: 72, a: 255 },
        Rgba { r: 246, g: 233, b: 28, a: 255 },
        Rgba { r: 236, g: 223, b: 7, a: 255 },
        Rgba { r: 199, g: 188, b: 3, a: 255 },
        Rgba { r: 162, g: 153, b: 7, a: 255 },
        Rgba { r: 130, g: 112, b: 6, a: 255 },
        Rgba { r: 88, g: 83, b: 6, a: 255 },
        Rgba { r: 65, g: 61, b: 0, a: 255 },
    ];
    assert(hues@ =~= yellow_hues());
    Palette { hues }
}

/// The six named palettes together.
pub struct Palettes {
    pub blue: Palette,
    pub green: Palette,
    pub red: Palette,
    pub brown: Palette,
    pub yellow: Palette,
    pub white: Palette,
}

impl Palettes {
    pub fn new() -> (r: Palettes)
        ensures
            r.blue.hues@ == blue_hues(),
            r.green.hues@ == green_hues(),
            r.red.hues@ == red_hues(),
            r.brown.hues@ == brown_hues(),
            r.yellow.hues@ == yellow_hues(),
            r.white.hues@ == white_hues(),
    {
        Palettes {
            blue: blue_palette(),
            green: green_palette(),
            red: red_palette(),
            brown: brown_palette(),
            yellow: yellow_palette(),
            white: white_palette(),
        }
    }
}

/// The named palette's shade table, as a palette value.
pub fn get_palette(palette_name: &PaletteName) -> (p: Palette)
    ensures
        p.hues@ == palette_hues(*palette_name),
{
    match palette_name {
        PaletteName::White => white_palette(),
        PaletteName::Red => red_palette(),
        PaletteName::Green => green_palette(),
        PaletteName::Blue => blue_palette(),
        PaletteName::Yellow => yellow_palette(),
        PaletteName::Brown => brown_palette(),
    }
}

/// Every entry of every named palette is fully opaque.
pub proof fn lemma_palette_hues_opaque(name: PaletteName)
    ensures
        palette_hues(name).len() == 14,
        forall|i: int| 0 <= i < 14 ==> #[trigger] palette_hues(name)[i].a == 255,
{
}

/// The background color used for fully transparent source pixels: the
/// second-lightest shade of the fill palette when one is given, otherwise
/// fully transparent black.
pub open spec fn background_fill(fill: Option<PaletteName>) -> Rgba {
    match fill {
        Some(f) => palette_hues(f)[1],
        None => rgba(0, 0, 0, 0),
    }
}

/// What one source pixel becomes under colorization: a fully opaque pixel
/// is replaced by the foreground palette's entry for its red channel's
/// shade bucket; a partially transparent pixel keeps its RGB and is forced
/// fully opaque; a fully transparent pixel becomes the background fill.
pub open spec fn colorized_pixel(src: Rgba, fg: PaletteName, fill: Option<PaletteName>) -> Rgba {
    if src.a == 255 {
        palette_hues(fg)[hue_bucket(src.r)]
    } else if src.a > 0 {
        Rgba { r: src.r, g: src.g, b: src.b, a: 255 }
    } else {
        background_fill(fill)
    }
}

/// The fill argument of `colorize_sprite`, as a plain optional name.
pub open spec fn fill_of(fill: Option<&PaletteName>) -> Option<PaletteName> {
    match fill {
        Some(f) => Some(*f),
        None => None,
    }
}

/// Recolors a sprite through a palette, pixel for pixel. The red channel of
/// each fully opaque source pixel selects a shade bucket of the foreground
/// palette; partially transparent pixels are forced opaque with their RGB
/// kept; fully transparent pixels take the fill palette's uniform
/// background color, or stay transparent when no fill is given.
pub fn colorize_sprite(sprite: &Bitmap, palette_name: &PaletteName, fill: Option<&PaletteName>) -> (r:
    Bitmap)
    requires
        sprite.wf(),
    ensures
        r.wf(),
        r.width == sprite.width,
        r.height == sprite.height,
        r.pixels@.len() == sprite.pixels@.len(),
        forall|i: int|
            0 <= i < sprite.pixels@.len() ==> r.pixels@[i] == colorized_pixel(
                sprite.pixels@[i],
                *palette_name,
                fill_of(fill),
            ),
        forall|i: int|
            0 <= i < sprite.pixels@.len() && sprite.pixels@[i].a > 0 ==> (
            #[trigger] r.pixels@[i]).a == 255,
{
    let foreground = get_palette(palette_name);
    let bg: Rgba = match fill {
        Some(f) => get_palette(f).hues[1],
        None => Rgba { r: 0, g: 0, b: 0, a: 0 },
    };
    let mut pixels: Vec<Rgba> = Vec::new();
    let n = sprite.pixels.len();
    for i in 0..n
        invariant
            n == sprite.pixels@.len(),
            foreground.hues@ == palette_hues(*palette_name),
            bg == background_fill(fill_of(fill)),
            pixels@.len() == i,
            forall|j: int|
                0 <= j < i ==> pixels@[j] == colorized_pixel(
                    sprite.pixels@[j],
                    *palette_name,
                    fill_of(fill),
                ),
    {
        let p = sprite.pixels[i];
        let out = if p.a == 255 {
            foreground.get_hue(p.r)
        } else if p.a > 0 {
            Rgba { r: p.r, g: p.g, b: p.b, a: 255 }
        } else {
            bg
        };
        pixels.push(out);
    }
    proof {
        lemma_palette_hues_opaque(*palette_name);
    }
    Bitmap { width: sprite.width, height: sprite.height, pixels }
}

} // verus!
