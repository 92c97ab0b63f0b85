use allrems::bitmap::{Bitmap, Rgba};
use allrems::palette::{colorize_sprite, get_palette, Palette, PaletteName, Palettes};

fn rgba(r: u8, g: u8, b: u8, a: u8) -> Rgba {
    Rgba { r, g, b, a }
}

#[test]
fn hue_bucket_boundaries_blue() {
    let p = get_palette(&PaletteName::Blue);
    assert_eq!(p.get_hue(255), rgba(177, 226, 255, 255));
    assert_eq!(p.get_hue(254), rgba(147, 185, 229, 255));
    assert_eq!(p.get_hue(235), rgba(147, 185, 229, 255));
    assert_eq!(p.get_hue(234), rgba(101, 145, 229, 255));
    assert_eq!(p.get_hue(215), rgba(101, 145, 229, 255));
    assert_eq!(p.get_hue(214), rgba(0, 99, 205, 255));
    assert_eq!(p.get_hue(15), rgba(0, 0, 50, 255));
    assert_eq!(p.get_hue(14), rgba(0, 0, 25, 255));
    assert_eq!(p.get_hue(0), rgba(0, 0, 25, 255));
}

#[test]
fn hue_buckets_all_fourteen_white() {
    let p = get_palette(&PaletteName::White);
    let expected: [u8; 14] = [255, 239, 229, 205, 175, 160, 149, 135, 124, 113, 106, 71, 50, 25];
    let samples: [u8; 14] = [255, 240, 220, 200, 180, 160, 140, 120, 100, 80, 60, 40, 20, 7];
    for i in 0..14 {
        let v = expected[i];
        assert_eq!(p.get_hue(samples[i]), rgba(v, v, v, 255));
    }
}

#[test]
fn palette_tables_exact_entries() {
    assert_eq!(get_palette(&PaletteName::Green).get_hue(255), rgba(177, 255, 226, 255));
    assert_eq!(get_palette(&PaletteName::Red).get_hue(255), rgba(255, 177, 226, 255));
    assert_eq!(get_palette(&PaletteName::Brown).get_hue(255), rgba(232, 179, 179, 255));
    assert_eq!(get_palette(&PaletteName::Yellow).get_hue(0), rgba(65, 61, 0, 255));
    assert_eq!(get_palette(&PaletteName::Yellow).get_hue(100), rgba(236, 223, 7, 255));
}

#[test]
fn palette_codes_round_trip() {
    let names = [
        PaletteName::White,
        PaletteName::Blue,
        PaletteName::Green,
        PaletteName::Red,
        PaletteName::Brown,
        PaletteName::Yellow,
    ];
    let codes = [0u8, 40, 80, 120, 160, 200];
    for i in 0..6 {
        assert_eq!(names[i].code(), codes[i]);
        assert_eq!(PaletteName::try_from(codes[i]), Some(names[i]));
    }
    assert_eq!(PaletteName::try_from(1), None);
    assert_eq!(PaletteName::try_from(41), None);
    assert_eq!(PaletteName::try_from(255), None);
}

#[test]
fn palettes_struct_holds_all_six() {
    let all: Palettes = Palettes::new();
    let white: Palette = all.white;
    assert_eq!(white.get_hue(255), rgba(255, 255, 255, 255));
    assert_eq!(all.blue.get_hue(255), rgba(177, 226, 255, 255));
    assert_eq!(all.green.get_hue(0), rgba(0, 25, 0, 255));
    assert_eq!(all.red.get_hue(0), rgba(25, 0, 0, 255));
    assert_eq!(all.brown.get_hue(255), rgba(232, 179, 179, 255));
    assert_eq!(all.yellow.get_hue(255), rgba(255, 249, 224, 255));
}

#[test]
fn colorize_opaque_pixel_takes_palette_entry() {
    let sprite = Bitmap { width: 2, height: 1, pixels: vec![rgba(255, 9, 9, 255), rgba(100, 1, 2, 255)] };
    let out = colorize_sprite(&sprite, &PaletteName::Blue, None);
    assert_eq!(out.width, 2);
    assert_eq!(out.height, 1);
    assert_eq!(out.pixels[0], rgba(177, 226, 255, 255));
    assert_eq!(out.pixels[1], rgba(0, 0, 124, 255));
}

#[test]
fn colorize_partial_alpha_forced_opaque_rgb_kept() {
    let sprite = Bitmap { width: 3, height: 1, pixels: vec![
        rgba(10, 20, 30, 1),
        rgba(40, 50, 60, 128),
        rgba(70, 80, 90, 254),
    ] };
    let out = colorize_sprite(&sprite, &PaletteName::Red, None);
    assert_eq!(out.pixels[0], rgba(10, 20, 30, 255));
    assert_eq!(out.pixels[1], rgba(40, 50, 60, 255));
    assert_eq!(out.pixels[2], rgba(70, 80, 90, 255));
}

#[test]
fn colorize_never_leaves_nonzero_alpha_transparent() {
    let mut pixels = Vec::new();
    for a in [1u8, 7, 100, 200, 255] {
        pixels.push(rgba(50, 60, 70, a));
    }
    let sprite = Bitmap { width: 5, height: 1, pixels };
    let out = colorize_sprite(&sprite, &PaletteName::Green, Some(&PaletteName::Brown));
    for px in &out.pixels {
        assert_eq!(px.a, 255);
    }
}

#[test]
fn colorize_empty_bitmap_stays_empty() {
    let sprite = Bitmap { width: 0, height: 0, pixels: Vec::new() };
    let out = colorize_sprite(&sprite, &PaletteName::White, None);
    assert_eq!(out.width, 0);
    assert_eq!(out.height, 0);
    assert!(out.pixels.is_empty());
}

#[test]
fn colorize_transparent_without_fill_stays_transparent() {
    let sprite = Bitmap { width: 1, height: 1, pixels: vec![rgba(200, 200, 200, 0)] };
    let out = colorize_sprite(&sprite, &PaletteName::Blue, None);
    assert_eq!(out.pixels[0], rgba(0, 0, 0, 0));
}

#[test]
fn colorize_transparent_with_fill_takes_fill_color() {
    let sprite = Bitmap { width: 1, height: 1, pixels: vec![rgba(200, 200, 200, 0)] };
    let out = colorize_sprite(&sprite, &PaletteName::Blue, Some(&PaletteName::Green));
    // The fill is the second-lightest shade of the fill palette.
    assert_eq!(out.pixels[0], rgba(147, 229, 185, 255));
}
