use allrems::math::{i_to_xy, mode, px_in_tile, xy_to_i};
use allrems::palette::PaletteName;
use allrems::sprite::SpriteId;
use allrems::tile::Tile;

#[test]
fn mode_most_frequent_wins() {
    assert_eq!(mode(&[0, 0, 40]), Some(0));
    assert_eq!(mode(&[40, 0, 40]), Some(40));
    assert_eq!(mode(&[7]), Some(7));
}

#[test]
fn mode_of_empty_is_none() {
    assert_eq!(mode(&[]), None);
}

#[test]
fn mode_tie_goes_to_first_completed_count() {
    // Both values occur twice; 1 completes its pair first.
    assert_eq!(mode(&[1, 2, 1, 2]), Some(1));
    assert_eq!(mode(&[2, 1, 2, 1]), Some(2));
    assert_eq!(mode(&[5, 5, 9, 9, 9]), Some(9));
}

#[test]
fn index_coordinate_round_trip() {
    assert_eq!(i_to_xy(&4, &0), (0, 0));
    assert_eq!(i_to_xy(&4, &3), (3, 0));
    assert_eq!(i_to_xy(&4, &4), (0, 1));
    assert_eq!(i_to_xy(&4, &11), (3, 2));
    assert_eq!(xy_to_i(&4, &3, &0), 3);
    assert_eq!(xy_to_i(&4, &0, &1), 4);
    assert_eq!(xy_to_i(&4, &3, &2), 11);
    for i in 0..20usize {
        let (x, y) = i_to_xy(&5, &i);
        assert_eq!(xy_to_i(&5, &x, &y), i);
    }
}

#[test]
fn px_in_tile_gives_offset_within_tile() {
    // Tile (2, 1) covers world pixels 32..48 x 16..32.
    let tile = Tile::new(2, 1, SpriteId::Missing, PaletteName::White);
    assert_eq!(px_in_tile(&(32, 16), &tile), (0, 0));
    assert_eq!(px_in_tile(&(47, 31), &tile), (15, 15));
    assert_eq!(px_in_tile(&(40, 20), &tile), (8, 4));
}
