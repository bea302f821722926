use vstd::prelude::*;
use crate::tile::Tile;

verus! {

/// A dungeon level: a rectangular grid of tiles, indexed as `grid[x][y]`
/// with `0 <= x < width` and `0 <= y < height`. The generator produces it
/// once; afterwards it is shared read-only by movement and rendering.
pub type Grid = Vec<Vec<Tile>>;

/// The mathematical view of a grid: the sequence of its columns.
pub open spec fn gview(g: Grid) -> Seq<Seq<Tile>> {
    Seq::new(g@.len(), |x: int| g@[x]@)
}

pub open spec fn width_of(g: Seq<Seq<Tile>>) -> int {
    g.len() as int
}

pub open spec fn height_of(g: Seq<Seq<Tile>>) -> int {
    if g.len() == 0 {
        0
    } else {
        g[0].len() as int
    }
}

/// Well-formed: every column has the same height.
pub open spec fn wf_grid(g: Seq<Seq<Tile>>) -> bool {
    forall|x: int| 0 <= x < g.len() ==> (#[trigger] g[x]).len() == height_of(g)
}

pub open spec fn in_bounds(g: Seq<Seq<Tile>>, x: int, y: int) -> bool {
    0 <= x < width_of(g) && 0 <= y < height_of(g)
}

pub open spec fn tile_at(g: Seq<Seq<Tile>>, x: int, y: int) -> Tile {
    g[x][y]
}

/// Passability query: the `blocked` flag of the tile at `(x, y)`. Callers
/// (notably movement) must bounds-check the coordinates first; the
/// precondition rejects out-of-range access instead of reading out of bounds.
pub fn is_blocked(map: &Grid, x: i32, y: i32) -> (r: bool)
    requires
        wf_grid(gview(*map)),
        in_bounds(gview(*map), x as int, y as int),
    ensures
        r == tile_at(gview(*map), x as int, y as int).blocked,
{
    proof {
        assert(gview(*map)[x as int].len() == height_of(gview(*map)));
    }
    map[x as usize][y as usize].blocked
}

/// Sight-blocking query: the `block_sight` flag of the tile at `(x, y)`,
/// under the same bounds contract as [`is_blocked`].
pub fn is_blocking_sight(map: &Grid, x: i32, y: i32) -> (r: bool)
    requires
        wf_grid(gview(*map)),
        in_bounds(gview(*map), x as int, y as int),
    ensures
        r == tile_at(gview(*map), x as int, y as int).block_sight,
{
    proof {
        assert(gview(*map)[x as int].len() == height_of(gview(*map)));
    }
    map[x as usize][y as usize].block_sight
}

} // verus!
