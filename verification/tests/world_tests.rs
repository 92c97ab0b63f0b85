use allrems::bitmap::{Bitmap, Rgba};
use allrems::interaction::{check_hit, handle_hit, Hit};
use allrems::palette::PaletteName;
use allrems::rect::Rect;
use allrems::sprite::{SpriteId, SpriteKey, SpritePaletteKey};
use allrems::tile::Tile;
use allrems::world::{World, TILE_SIZE};

fn rgba(r: u8, g: u8, b: u8, a: u8) -> Rgba {
    Rgba { r, g, b, a }
}

fn bitmap(width: usize, height: usize, pixels: Vec<Rgba>) -> Bitmap {
    assert_eq!(pixels.len(), width * height);
    Bitmap { width, height, pixels }
}

#[test]
fn one_by_one_world_is_one_placeholder_tile() {
    // A single fully opaque black pixel decodes to exactly one tile at
    // (0, 0): the placeholder sprite in the white palette.
    let world = World::new(bitmap(1, 1, vec![rgba(0, 0, 0, 255)]));
    assert_eq!(world.width, 1);
    assert_eq!(world.height, 1);
    assert_eq!(world.tiles.len(), 1);
    let tile = world.tiles[0].expect("cell must hold a tile");
    assert_eq!(tile.x, 0);
    assert_eq!(tile.y, 0);
    assert_eq!(
        *tile.get_sprite_key(),
        SpriteKey::Specific(SpritePaletteKey::new(
            SpriteId::Missing,
            PaletteName::White,
            PaletteName::White,
        )),
    );
    assert_eq!(*tile.get_drawing_rect(), Rect::new(0, 0, TILE_SIZE, TILE_SIZE));
}

#[test]
fn empty_bitmap_gives_empty_world() {
    let world = World::new(bitmap(0, 0, Vec::new()));
    assert_eq!(world.width, 0);
    assert_eq!(world.height, 0);
    assert!(world.tiles.is_empty());
}

#[test]
fn opaque_pixels_always_decode_to_placeholder() {
    // Whatever the RGB channels hold, alpha 255 yields the placeholder
    // tile, never an empty cell.
    let pixels = vec![
        rgba(0, 0, 0, 255),
        rgba(255, 255, 255, 255),
        rgba(1, 2, 3, 255),
        rgba(200, 100, 50, 255),
    ];
    let world = World::new(bitmap(4, 1, pixels));
    for cell in &world.tiles {
        let tile = cell.expect("opaque pixel must decode to a tile");
        match tile.get_sprite_key() {
            SpriteKey::Specific(s) => assert_eq!(s.sid, SpriteId::Missing),
            _ => panic!("decoded tile must use a specific sprite"),
        }
    }
}

#[test]
fn known_color_identifiers_decode_to_their_sprites() {
    let pixels = vec![
        rgba(0, 0, 0, 0),     // C000_000_000_000 -> Empty sprite
        rgba(255, 255, 255, 0), // C255_255_255_000 -> Missing sprite
    ];
    let world = World::new(bitmap(2, 1, pixels));
    let first = world.tiles[0].expect("known identifier decodes to a tile");
    let second = world.tiles[1].expect("known identifier decodes to a tile");
    match first.get_sprite_key() {
        SpriteKey::Specific(s) => {
            assert_eq!(s.sid, SpriteId::Empty);
            assert_eq!(s.foreground, PaletteName::White);
        }
        _ => panic!("expected a specific sprite"),
    }
    match second.get_sprite_key() {
        SpriteKey::Specific(s) => assert_eq!(s.sid, SpriteId::Missing),
        _ => panic!("expected a specific sprite"),
    }
}

#[test]
fn unknown_color_identifier_decodes_to_empty_cell() {
    // Alpha 0 but unknown channels: the lookup fails, the cell is empty.
    // Even alpha 0 routes through the lookup path.
    let world = World::new(bitmap(2, 1, vec![rgba(9, 9, 9, 0), rgba(0, 0, 0, 128)]));
    assert!(world.tiles[0].is_none());
    assert!(world.tiles[1].is_none());
}

#[test]
fn decode_assigns_row_major_coordinates() {
    let mut pixels = Vec::new();
    for _ in 0..6 {
        pixels.push(rgba(0, 0, 0, 255));
    }
    let world = World::new(bitmap(3, 2, pixels));
    let tile = world.get_tile(&2, &1).expect("tile exists");
    assert_eq!(tile.x, 2);
    assert_eq!(tile.y, 1);
    assert_eq!(
        *tile.get_drawing_rect(),
        Rect::new(2 * TILE_SIZE, TILE_SIZE, 3 * TILE_SIZE, 2 * TILE_SIZE),
    );
}

fn checkered_world() -> World {
    // 4x4 world: cells where (x + y) is even hold tiles, the rest are
    // empty (unknown identifier).
    let mut pixels = Vec::new();
    for y in 0..4 {
        for x in 0..4 {
            if (x + y) % 2 == 0 {
                pixels.push(rgba(0, 0, 0, 255));
            } else {
                pixels.push(rgba(9, 9, 9, 0));
            }
        }
    }
    World::new(bitmap(4, 4, pixels))
}

#[test]
fn get_surrounding_interior_is_three_by_three() {
    let world = checkered_world();
    let surrounding = world.get_surrounding(&1, &1);
    assert_eq!(surrounding.len(), 9);
    // Row-major 3x3 block around (1, 1): present exactly where
    // (x + y) is even.
    let expect_present = [true, false, true, false, true, false, true, false, true];
    for i in 0..9 {
        assert_eq!(surrounding[i].is_some(), expect_present[i], "index {}", i);
    }
    // The center entry is the cell itself: (1, 1) has even sum, a tile.
    assert_eq!(surrounding[4].unwrap().x, 1);
    assert_eq!(surrounding[4].unwrap().y, 1);
}

#[test]
fn get_surrounding_edge_is_four_cardinals() {
    let world = checkered_world();
    // (0, 0): on the edge, so the four cardinal neighbors are returned,
    // with empty entries where the grid ends.
    let surrounding = world.get_surrounding(&0, &0);
    assert_eq!(surrounding.len(), 4);
    assert!(surrounding[0].is_none()); // above: off-grid
    assert!(surrounding[1].is_none()); // left: off-grid
    assert!(surrounding[2].is_none()); // right: (1,0), odd sum, empty
    assert!(surrounding[3].is_none()); // below: (0,1), odd sum, empty

    // (3, 1): right edge; all four cardinals are odd-sum or off-grid.
    let surrounding = world.get_surrounding(&3, &1);
    assert_eq!(surrounding.len(), 4);
    for cell in &surrounding {
        assert!(cell.is_none());
    }
}

#[test]
fn get_surrounding_edge_cardinal_contents() {
    let world = checkered_world();
    let surrounding = world.get_surrounding(&0, &1);
    assert_eq!(surrounding.len(), 4);
    assert!(surrounding[0].is_some()); // above: (0,0), even
    assert!(surrounding[1].is_none()); // left: off-grid
    assert!(surrounding[2].is_some()); // right: (1,1), even
    assert!(surrounding[3].is_some()); // below: (0,2), even
}

#[test]
fn px_to_grid_prefers_explicit_pixel() {
    let world = checkered_world();
    assert_eq!(world.px_to_grid(Some(&(33, 17)), None), Some((2, 1)));
    assert_eq!(world.px_to_grid(Some(&(0, 0)), Some((99, 99))), Some((0, 0)));
    assert_eq!(world.px_to_grid(None, Some((48, 15))), Some((3, 0)));
    assert_eq!(world.px_to_grid(None, None), None);
}

#[test]
fn check_hit_requires_press_pixel_grid_and_tile() {
    let world = checkered_world();
    let px = Some((0, 0));
    let grid = Some((0, 0));
    assert_eq!(check_hit(&world, true, px, grid), Some(Hit::Tile((0, 0))));
    assert_eq!(check_hit(&world, false, px, grid), None);
    assert_eq!(check_hit(&world, true, None, grid), None);
    assert_eq!(check_hit(&world, true, px, None), None);
    // (1, 0) holds no tile.
    assert_eq!(check_hit(&world, true, px, Some((1, 0))), None);
}

#[test]
fn handle_hit_repaints_only_the_struck_tile() {
    let mut world = checkered_world();
    handle_hit(Hit::Tile((2, 2)), &PaletteName::Red, &mut world);
    let repainted = world.get_tile(&2, &2).expect("tile still there");
    match repainted.get_sprite_key() {
        SpriteKey::Specific(s) => {
            assert_eq!(s.foreground, PaletteName::Red);
            assert_eq!(s.background, PaletteName::Red);
            assert_eq!(s.sid, SpriteId::Missing);
        }
        _ => panic!("repainting must keep the sprite"),
    }
    // A different tile keeps its palettes.
    let other = world.get_tile(&0, &0).expect("tile still there");
    match other.get_sprite_key() {
        SpriteKey::Specific(s) => {
            assert_eq!(s.foreground, PaletteName::White);
            assert_eq!(s.background, PaletteName::White);
        }
        _ => panic!("unexpected sprite key"),
    }
    // Striking an empty cell changes nothing.
    handle_hit(Hit::Tile((1, 0)), &PaletteName::Blue, &mut world);
    assert!(world.get_tile(&1, &0).is_none());
}
