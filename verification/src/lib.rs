//! Tile-based 2D world model: decodes a bitmap into a grid of tiles, resolves
//! palette-colorized sprites, and picks nine-slice (auto-tiling) directions
//! from neighbor adjacency.

pub mod bitmap;
pub mod button;
pub mod debug;
pub mod interaction;
pub mod loading;
pub mod math;
pub mod palette;
pub mod rect;
pub mod sprite;
pub mod tile;
pub mod ui;
pub mod world;
