use vstd::prelude::*;

verus! {

/// A rectangular room descriptor, transient: used only while carving.
/// `(x1, y1)` is the origin; `x2 = x1 + w` and `y2 = y1 + h` for a room of
/// size `w x h`. Only the interior strictly inside the rectangle is carved,
/// so every room keeps a one-tile wall border.
#[derive(Clone, Copy, Debug, PartialEq, Eq, Structural)]
pub struct Rect {
    pub x1: i32,
    pub y1: i32,
    pub x2: i32,
    pub y2: i32,
}

impl Rect {
    /// Builds the descriptor from an origin `(x, y)` and a size `(w, h)`.
    pub fn new(x: i32, y: i32, w: i32, h: i32) -> (r: Rect)
        requires
            i32::MIN <= x + w <= i32::MAX,
            i32::MIN <= y + h <= i32::MAX,
        ensures
            r.x1 == x,
            r.y1 == y,
            r.x2 == x + w,
            r.y2 == y + h,
    {
        Rect { x1: x, y1: y, x2: x + w, y2: y + h }
    }
}

/// A straight one-tile-wide corridor: a horizontal one carves every tile
/// `(x, y)` for `x` over the inclusive span between `x1` and `x2` (in either
/// order), a vertical one does the same along a fixed `x`.
#[derive(Clone, Copy, Debug, PartialEq, Eq, Structural)]
pub enum Tunnel {
    Horizontal { x1: i32, x2: i32, y: i32 },
    Vertical { y1: i32, y2: i32, x: i32 },
}

/// The two failure modes of grid generation and carving.
#[derive(Clone, Copy, Debug, PartialEq, Eq, Structural)]
pub enum GridError {
    /// A single carve targets coordinates outside the grid.
    OutOfBounds,
    /// A configured room or tunnel endpoint lies outside the grid, a room
    /// has non-positive size, or a grid dimension is negative.
    InvalidGeometry,
}

/// `(x, y)` lies strictly inside `room`: the carved region, which leaves a
/// one-tile border on every side of the rectangle.
pub open spec fn in_room_interior(room: Rect, x: int, y: int) -> bool {
    room.x1 + 1 <= x < room.x2 && room.y1 + 1 <= y < room.y2
}

/// A room's interior carves nothing: its rectangle is thinner than two
/// tiles in one of the two directions.
pub open spec fn room_interior_empty(room: Rect) -> bool {
    room.x2 <= room.x1 + 1 || room.y2 <= room.y1 + 1
}

/// `(cx, cy)` lies on the horizontal span at height `y` between `x1` and
/// `x2`, inclusive on both ends and independent of endpoint order.
pub open spec fn in_h_span(x1: int, x2: int, y: int, cx: int, cy: int) -> bool {
    cy == y && vstd::math::min(x1, x2) <= cx <= vstd::math::max(x1, x2)
}

/// `(cx, cy)` lies on the vertical span at column `x` between `y1` and
/// `y2`, inclusive on both ends and independent of endpoint order.
pub open spec fn in_v_span(y1: int, y2: int, x: int, cx: int, cy: int) -> bool {
    cx == x && vstd::math::min(y1, y2) <= cy <= vstd::math::max(y1, y2)
}

/// `(cx, cy)` is carved by the tunnel `t`.
pub open spec fn tunnel_contains(t: Tunnel, cx: int, cy: int) -> bool {
    match t {
        Tunnel::Horizontal { x1, x2, y } => in_h_span(x1 as int, x2 as int, y as int, cx, cy),
        Tunnel::Vertical { y1, y2, x } => in_v_span(y1 as int, y2 as int, x as int, cx, cy),
    }
}

/// A configured room is acceptable: positive size and both endpoints within
/// a `width x height` grid.
pub open spec fn room_valid(room: Rect, width: int, height: int) -> bool {
    &&& 0 <= room.x1
    &&& room.x1 < room.x2 < width
    &&& 0 <= room.y1
    &&& room.y1 < room.y2 < height
}

/// A configured tunnel is acceptable: both endpoints within a
/// `width x height` grid.
pub open spec fn tunnel_valid(t: Tunnel, width: int, height: int) -> bool {
    match t {
        Tunnel::Horizontal { x1, x2, y } => {
            0 <= x1 < width && 0 <= x2 < width && 0 <= y < height
        },
        Tunnel::Vertical { y1, y2, x } => {
            0 <= y1 < height && 0 <= y2 < height && 0 <= x < width
        },
    }
}

/// Every configured room and tunnel is acceptable for a `width x height`
/// grid.
pub open spec fn config_valid(
    width: int,
    height: int,
    rooms: Seq<Rect>,
    tunnels: Seq<Tunnel>,
) -> bool {
    &&& forall|i: int| 0 <= i < rooms.len() ==> room_valid(#[trigger] rooms[i], width, height)
    &&& forall|i: int|
        0 <= i < tunnels.len() ==> tunnel_valid(#[trigger] tunnels[i], width, height)
}

/// A room can host a spawn point at its center only when the center lies in
/// the carved interior, which takes a rectangle at least two tiles wide and
/// two tiles high.
pub open spec fn room_spawnable(room: Rect) -> bool {
    room.x1 + 2 <= room.x2 && room.y1 + 2 <= room.y2
}

/// The center of a room's rectangle, the designated spawn point of the
/// first configured room.
pub open spec fn room_center(room: Rect) -> (int, int) {
    ((room.x1 + room.x2) / 2, (room.y1 + room.y2) / 2)
}

} // verus!
