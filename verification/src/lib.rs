//! A dungeon-level generator: a rectangular tile grid into which rooms and
//! straight tunnels are carved, together with the per-tile passability and
//! sight-blocking queries that a movement system and a renderer consume.

pub mod carve;
pub mod generate;
pub mod geometry;
pub mod grid;
pub mod laws;
pub mod tile;

pub use generate::generate;
pub use generate::make_map;
pub use generate::MAP_HEIGHT;
pub use generate::MAP_WIDTH;
pub use geometry::GridError;
pub use geometry::Rect;
pub use geometry::Tunnel;
pub use grid::is_blocked;
pub use grid::is_blocking_sight;
pub use grid::Grid;
pub use tile::Tile;
