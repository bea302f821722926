use vstd::prelude::*;

verus! {

/// A tile of the map and its properties: whether an actor can occupy it and
/// whether it stops a sight/light ray. The two flags are independent in the
/// data model, but every tile of a generated grid is in one of the two
/// canonical states, [`floor_tile`] or [`wall_tile`].
#[derive(Clone, Copy, Debug, PartialEq, Eq, Structural)]
pub struct Tile {
    pub blocked: bool,
    pub block_sight: bool,
}

/// The canonical passable, transparent state.
pub open spec fn floor_tile() -> Tile {
    Tile { blocked: false, block_sight: false }
}

/// The canonical impassable, opaque state.
pub open spec fn wall_tile() -> Tile {
    Tile { blocked: true, block_sight: true }
}

/// A tile is canonical when its two flags agree: either a full wall or a
/// full floor, never a mixed combination.
pub open spec fn is_canonical(t: Tile) -> bool {
    t == floor_tile() || t == wall_tile()
}

impl Tile {
    /// The passable, transparent tile.
    pub fn empty() -> (t: Tile)
        ensures
            t == floor_tile(),
    {
        Tile { blocked: false, block_sight: false }
    }

    /// The impassable, opaque tile.
    pub fn wall() -> (t: Tile)
        ensures
            t == wall_tile(),
    {
        Tile { blocked: true, block_sight: true }
    }
}

} // verus!
