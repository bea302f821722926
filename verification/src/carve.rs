use vstd::prelude::*;
use crate::geometry::GridError;
use crate::geometry::Rect;
use crate::geometry::in_h_span;
use crate::geometry::in_room_interior;
use crate::geometry::in_v_span;
use crate::geometry::room_interior_empty;
use crate::grid::Grid;
use crate::grid::gview;
use crate::grid::height_of;
use crate::grid::wf_grid;
use crate::grid::width_of;
use crate::tile::Tile;
use crate::tile::floor_tile;

verus! {

/// The grid with every cell satisfying `p` set to floor and every other
/// cell kept as it was. Carving only ever sets tiles to floor, never back
/// to wall, which is what makes it idempotent and order-independent.
pub open spec fn carve_cells(g: Seq<Seq<Tile>>, p: spec_fn(int, int) -> bool) -> Seq<Seq<Tile>> {
    Seq::new(
        g.len(),
        |x: int|
            Seq::new(
                g[x].len(),
                |y: int|
                    if p(x, y) {
                        floor_tile()
                    } else {
                        g[x][y]
                    },
            ),
    )
}

/// The grid after carving the interior of `room`.
pub open spec fn carve_room_spec(g: Seq<Seq<Tile>>, room: Rect) -> Seq<Seq<Tile>> {
    carve_cells(g, |x: int, y: int| in_room_interior(room, x, y))
}

/// The grid after carving a horizontal tunnel at height `y` spanning
/// between `x1` and `x2`, inclusive on both ends.
pub open spec fn carve_h_spec(g: Seq<Seq<Tile>>, x1: int, x2: int, y: int) -> Seq<Seq<Tile>> {
    carve_cells(g, |cx: int, cy: int| in_h_span(x1, x2, y, cx, cy))
}

/// The grid after carving a vertical tunnel at column `x` spanning between
/// `y1` and `y2`, inclusive on both ends.
pub open spec fn carve_v_spec(g: Seq<Seq<Tile>>, y1: int, y2: int, x: int) -> Seq<Seq<Tile>> {
    carve_cells(g, |cx: int, cy: int| in_v_span(y1, y2, x, cx, cy))
}

/// The interior of `room` lies inside a `width x height` grid, or is empty
/// and carves nothing.
pub open spec fn room_carve_ok(room: Rect, width: int, height: int) -> bool {
    room_interior_empty(room) || (0 <= room.x1 + 1 && room.x2 <= width && 0 <= room.y1 + 1
        && room.y2 <= height)
}

/// Carve the interior of `room`: every tile with `x` in `x1+1 .. x2` and
/// `y` in `y1+1 .. y2` becomes floor, keeping a one-tile wall border on
/// every side of the rectangle.
pub fn carve_room(room: Rect, map: &mut Grid)
    requires
        wf_grid(gview(*old(map))),
        width_of(gview(*old(map))) <= i32::MAX,
        height_of(gview(*old(map))) <= i32::MAX,
        room_carve_ok(room, width_of(gview(*old(map))), height_of(gview(*old(map)))),
    ensures
        gview(*final(map)) == carve_room_spec(gview(*old(map)), room),
{
    let ghost g0 = gview(*map);
    if (room.x2 as i64) <= (room.x1 as i64) + 1 || (room.y2 as i64) <= (room.y1 as i64) + 1 {
        proof {
            assert(gview(*map) =~~= carve_room_spec(g0, room));
        }
        return;
    }
    let xs: usize = (room.x1 + 1) as usize;
    let xe: usize = room.x2 as usize;
    let ys: usize = (room.y1 + 1) as usize;
    let ye: usize = room.y2 as usize;
    let mut x: usize = xs;
    while x < xe
        invariant
            xs <= x <= xe,
            xs == room.x1 + 1,
            xe == room.x2,
            ys == room.y1 + 1,
            ye == room.y2,
            xs < xe,
            ys < ye,
            xe <= g0.len(),
            ye <= height_of(g0),
            wf_grid(g0),
            gview(*map).len() == g0.len(),
            forall|i: int| 0 <= i < g0.len() ==> (#[trigger] gview(*map)[i]).len() == g0[i].len(),
            forall|i: int, j: int|
                0 <= i < g0.len() && 0 <= j < g0[i].len() ==> #[trigger] gview(*map)[i][j] == (
                if in_room_interior(room, i, j) && i < x {
                    floor_tile()
                } else {
                    g0[i][j]
                }),
        decreases xe - x,
    {
        let mut y: usize = ys;
        while y < ye
            invariant
                ys <= y <= ye,
                xs <= x < xe,
                xs == room.x1 + 1,
                xe == room.x2,
                ys == room.y1 + 1,
                ye == room.y2,
                xe <= g0.len(),
                ye <= height_of(g0),
                wf_grid(g0),
                gview(*map).len() == g0.len(),
                forall|i: int|
                    0 <= i < g0.len() ==> (#[trigger] gview(*map)[i]).len() == g0[i].len(),
                forall|i: int, j: int|
                    0 <= i < g0.len() && 0 <= j < g0[i].len() ==> #[trigger] gview(*map)[i][j]
                        == (if in_room_interior(room, i, j) && (i < x || (i == x && j < y)) {
                        floor_tile()
                    } else {
                        g0[i][j]
                    }),
            decreases ye - y,
        {
            proof {
                assert(gview(*map)[x as int] == map@[x as int]@);
                assert(g0[x as int].len() == height_of(g0));
            }
            let ghost mp = gview(*map);
            map[x][y] = Tile::empty();
            proof {
                assert(gview(*map) =~= mp.update(
                    x as int,
                    mp[x as int].update(y as int, floor_tile()),
                ));
            }
            y = y + 1;
        }
        x = x + 1;
    }
    proof {
        assert(gview(*map) =~~= carve_room_spec(g0, room));
    }
}

/// Carve the interior of `room` after validating it against the grid:
/// rejects with `OutOfBounds`, mutating nothing, if any interior cell lies
/// outside the grid.
pub fn create_room(room: Rect, map: &mut Grid) -> (r: Result<(), GridError>)
    requires
        wf_grid(gview(*old(map))),
        width_of(gview(*old(map))) <= i32::MAX,
        height_of(gview(*old(map))) <= i32::MAX,
    ensures
        r is Ok <==> room_carve_ok(
            room,
            width_of(gview(*old(map))),
            height_of(gview(*old(map))),
        ),
        r is Ok ==> gview(*final(map)) == carve_room_spec(gview(*old(map)), room),
        r is Err ==> *final(map) == *old(map) && r == Err::<(), GridError>(
            GridError::OutOfBounds,
        ),
{
    let width: usize = map.len();
    let height: usize = if width == 0 {
        0
    } else {
        map[0].len()
    };
    proof {
        assert(width == width_of(gview(*map)));
        assert(height == height_of(gview(*map)));
    }
    if (room.x2 as i64) > (room.x1 as i64) + 1 && (room.y2 as i64) > (room.y1 as i64) + 1 {
        let x_lo: i64 = room.x1 as i64 + 1;
        let y_lo: i64 = room.y1 as i64 + 1;
        if x_lo < 0 || (room.x2 as i64) > width as i64 || y_lo < 0 || (room.y2 as i64)
            > height as i64 {
            return Err(GridError::OutOfBounds);
        }
    }
    carve_room(room, map);
    Ok(())
}

/// The whole inclusive span of a horizontal tunnel lies inside a
/// `width x height` grid.
pub open spec fn h_tunnel_ok(x1: int, x2: int, y: int, width: int, height: int) -> bool {
    0 <= vstd::math::min(x1, x2) && vstd::math::max(x1, x2) < width && 0 <= y < height
}

/// The whole inclusive span of a vertical tunnel lies inside a
/// `width x height` grid.
pub open spec fn v_tunnel_ok(y1: int, y2: int, x: int, width: int, height: int) -> bool {
    0 <= vstd::math::min(y1, y2) && vstd::math::max(y1, y2) < height && 0 <= x < width
}

/// Carve a horizontal tunnel at height `y`: every tile of the inclusive
/// span between `x1` and `x2`, in either endpoint order, becomes floor.
pub fn carve_h_tunnel(x1: i32, x2: i32, y: i32, map: &mut Grid)
    requires
        wf_grid(gview(*old(map))),
        width_of(gview(*old(map))) <= i32::MAX,
        height_of(gview(*old(map))) <= i32::MAX,
        h_tunnel_ok(
            x1 as int,
            x2 as int,
            y as int,
            width_of(gview(*old(map))),
            height_of(gview(*old(map))),
        ),
    ensures
        gview(*final(map)) == carve_h_spec(gview(*old(map)), x1 as int, x2 as int, y as int),
{
    let ghost g0 = gview(*map);
    let lo: i32 = if x1 <= x2 {
        x1
    } else {
        x2
    };
    let hi: i32 = if x1 <= x2 {
        x2
    } else {
        x1
    };
    let ys: usize = y as usize;
    let xe: usize = hi as usize;
    let mut x: usize = lo as usize;
    while x <= xe
        invariant
            lo <= x <= xe + 1,
            lo == vstd::math::min(x1 as int, x2 as int),
            xe == vstd::math::max(x1 as int, x2 as int),
            ys == y,
            0 <= lo,
            xe < g0.len(),
            ys < height_of(g0),
            wf_grid(g0),
            gview(*map).len() == g0.len(),
            forall|i: int| 0 <= i < g0.len() ==> (#[trigger] gview(*map)[i]).len() == g0[i].len(),
            forall|i: int, j: int|
                0 <= i < g0.len() && 0 <= j < g0[i].len() ==> #[trigger] gview(*map)[i][j] == (
                if in_h_span(x1 as int, x2 as int, y as int, i, j) && i < x {
                    floor_tile()
                } else {
                    g0[i][j]
                }),
        decreases xe + 1 - x,
    {
        proof {
            assert(gview(*map)[x as int] == map@[x as int]@);
            assert(g0[x as int].len() == height_of(g0));
        }
        let ghost mp = gview(*map);
        map[x][ys] = Tile::empty();
        proof {
            assert(gview(*map) =~= mp.update(
                x as int,
                mp[x as int].update(ys as int, floor_tile()),
            ));
        }
        x = x + 1;
    }
    proof {
        assert(gview(*map) =~~= carve_h_spec(g0, x1 as int, x2 as int, y as int));
    }
}

/// Carve a vertical tunnel at column `x`: every tile of the inclusive span
/// between `y1` and `y2`, in either endpoint order, becomes floor.
pub fn carve_v_tunnel(y1: i32, y2: i32, x: i32, map: &mut Grid)
    requires
        wf_grid(gview(*old(map))),
        width_of(gview(*old(map))) <= i32::MAX,
        height_of(gview(*old(map))) <= i32::MAX,
        v_tunnel_ok(
            y1 as int,
            y2 as int,
            x as int,
            width_of(gview(*old(map))),
            height_of(gview(*old(map))),
        ),
    ensures
        gview(*final(map)) == carve_v_spec(gview(*old(map)), y1 as int, y2 as int, x as int),
{
    let ghost g0 = gview(*map);
    let lo: i32 = if y1 <= y2 {
        y1
    } else {
        y2
    };
    let hi: i32 = if y1 <= y2 {
        y2
    } else {
        y1
    };
    let xs: usize = x as usize;
    let ye: usize = hi as usize;
    let mut y: usize = lo as usize;
    while y <= ye
        invariant
            lo <= y <= ye + 1,
            lo == vstd::math::min(y1 as int, y2 as int),
            ye == vstd::math::max(y1 as int, y2 as int),
            xs == x,
            0 <= lo,
            ye < height_of(g0),
            xs < g0.len(),
            wf_grid(g0),
            gview(*map).len() == g0.len(),
            forall|i: int| 0 <= i < g0.len() ==> (#[trigger] gview(*map)[i]).len() == g0[i].len(),
            forall|i: int, j: int|
                0 <= i < g0.len() && 0 <= j < g0[i].len() ==> #[trigger] gview(*map)[i][j] == (
                if in_v_span(y1 as int, y2 as int, x as int, i, j) && j < y {
                    floor_tile()
                } else {
                    g0[i][j]
                }),
        decreases ye + 1 - y,
    {
        proof {
            assert(gview(*map)[xs as int] == map@[xs as int]@);
            assert(g0[xs as int].len() == height_of(g0));
        }
        let ghost mp = gview(*map);
        map[xs][y] = Tile::empty();
        proof {
            assert(gview(*map) =~= mp.update(
                xs as int,
                mp[xs as int].update(y as int, floor_tile()),
            ));
        }
        y = y + 1;
    }
    proof {
        assert(gview(*map) =~~= carve_v_spec(g0, y1 as int, y2 as int, x as int));
    }
}

/// Carve a horizontal tunnel after validating it against the grid: rejects
/// with `OutOfBounds`, mutating nothing, if any tile of the span lies
/// outside the grid.
pub fn create_h_tunnel(x1: i32, x2: i32, y: i32, map: &mut Grid) -> (r: Result<(), GridError>)
    requires
        wf_grid(gview(*old(map))),
        width_of(gview(*old(map))) <= i32::MAX,
        height_of(gview(*old(map))) <= i32::MAX,
    ensures
        r is Ok <==> h_tunnel_ok(
            x1 as int,
            x2 as int,
            y as int,
            width_of(gview(*old(map))),
            height_of(gview(*old(map))),
        ),
        r is Ok ==> gview(*final(map)) == carve_h_spec(
            gview(*old(map)),
            x1 as int,
            x2 as int,
            y as int,
        ),
        r is Err ==> *final(map) == *old(map) && r == Err::<(), GridError>(
            GridError::OutOfBounds,
        ),
{
    let width: usize = map.len();
    let height: usize = if width == 0 {
        0
    } else {
        map[0].len()
    };
    proof {
        assert(width == width_of(gview(*map)));
        assert(height == height_of(gview(*map)));
    }
    if x1 < 0 || x2 < 0 || (x1 as i64) >= (width as i64) || (x2 as i64) >= (width as i64) || y < 0
        || (y as i64) >= (height as i64) {
        return Err(GridError::OutOfBounds);
    }
    carve_h_tunnel(x1, x2, y, map);
    Ok(())
}

/// Carve a vertical tunnel after validating it against the grid: rejects
/// with `OutOfBounds`, mutating nothing, if any tile of the span lies
/// outside the grid.
pub fn create_v_tunnel(y1: i32, y2: i32, x: i32, map: &mut Grid) -> (r: Result<(), GridError>)
    requires
        wf_grid(gview(*old(map))),
        width_of(gview(*old(map))) <= i32::MAX,
        height_of(gview(*old(map))) <= i32::MAX,
    ensures
        r is Ok <==> v_tunnel_ok(
            y1 as int,
            y2 as int,
            x as int,
            width_of(gview(*old(map))),
            height_of(gview(*old(map))),
        ),
        r is Ok ==> gview(*final(map)) == carve_v_spec(
            gview(*old(map)),
            y1 as int,
            y2 as int,
            x as int,
        ),
        r is Err ==> *final(map) == *old(map) && r == Err::<(), GridError>(
            GridError::OutOfBounds,
        ),
{
    let width: usize = map.len();
    let height: usize = if width == 0 {
        0
    } else {
        map[0].len()
    };
    proof {
        assert(width == width_of(gview(*map)));
        assert(height == height_of(gview(*map)));
    }
    if y1 < 0 || y2 < 0 || (y1 as i64) >= (height as i64) || (y2 as i64) >= (height as i64) || x
        < 0 || (x as i64) >= (width as i64) {
        return Err(GridError::OutOfBounds);
    }
    carve_v_tunnel(y1, y2, x, map);
    Ok(())
}

} // verus!
