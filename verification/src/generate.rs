use vstd::prelude::*;
use crate::carve::carve_h_tunnel;
use crate::carve::carve_room;
use crate::carve::carve_v_tunnel;
use crate::carve::h_tunnel_ok;
use crate::carve::room_carve_ok;
use crate::carve::v_tunnel_ok;
use crate::geometry::GridError;
use crate::geometry::Rect;
use crate::geometry::Tunnel;
use crate::geometry::config_valid;
use crate::geometry::in_room_interior;
use crate::geometry::room_center;
use crate::geometry::room_spawnable;
use crate::geometry::room_valid;
use crate::geometry::tunnel_contains;
use crate::geometry::tunnel_valid;
use crate::grid::Grid;
use crate::grid::gview;
use crate::grid::height_of;
use crate::grid::in_bounds;
use crate::grid::tile_at;
use crate::grid::wf_grid;
use crate::grid::width_of;
use crate::tile::Tile;
use crate::tile::floor_tile;
use crate::tile::is_canonical;
use crate::tile::wall_tile;

verus! {

/// Grid width of the fixed-layout level.
pub const MAP_WIDTH: i32 = 80;

/// Grid height of the fixed-layout level.
pub const MAP_HEIGHT: i32 = 50;

/// `(x, y)` lies in the interior of one of the first `n` rooms.
pub open spec fn cell_in_rooms_prefix(rooms: Seq<Rect>, n: int, x: int, y: int) -> bool {
    exists|k: int| 0 <= k < n && in_room_interior(#[trigger] rooms[k], x, y)
}

/// `(x, y)` lies on the span of one of the first `n` tunnels.
pub open spec fn cell_in_tunnels_prefix(tunnels: Seq<Tunnel>, n: int, x: int, y: int) -> bool {
    exists|k: int| 0 <= k < n && tunnel_contains(#[trigger] tunnels[k], x, y)
}

/// `(x, y)` is carved by the configuration: it lies in some room's interior
/// or on some tunnel's span.
pub open spec fn cell_carved(rooms: Seq<Rect>, tunnels: Seq<Tunnel>, x: int, y: int) -> bool {
    cell_in_rooms_prefix(rooms, rooms.len() as int, x, y) || cell_in_tunnels_prefix(
        tunnels,
        tunnels.len() as int,
        x,
        y,
    )
}

/// The spawn point a configuration yields: the center of the first room,
/// when there is a first room whose center lies in its carved interior.
pub open spec fn spawn_of(rooms: Seq<Rect>) -> Option<(i32, i32)> {
    if rooms.len() > 0 && room_spawnable(rooms[0]) {
        Some((room_center(rooms[0]).0 as i32, room_center(rooms[0]).1 as i32))
    } else {
        None
    }
}

/// What a successful generation returns: a well-formed grid of the
/// requested dimensions in which exactly the configured cells are floor,
/// every other tile is still wall, and every tile is in one of the two
/// canonical states, together with the configuration's spawn point, which
/// always lies on a floor tile.
pub open spec fn generation_ok(
    g: Seq<Seq<Tile>>,
    spawn: Option<(i32, i32)>,
    width: int,
    height: int,
    rooms: Seq<Rect>,
    tunnels: Seq<Tunnel>,
) -> bool {
    &&& wf_grid(g)
    &&& width_of(g) == width
    &&& forall|x: int| 0 <= x < g.len() ==> (#[trigger] g[x]).len() == height
    &&& forall|x: int, y: int|
        in_bounds(g, x, y) ==> #[trigger] tile_at(g, x, y) == (if cell_carved(
            rooms,
            tunnels,
            x,
            y,
        ) {
            floor_tile()
        } else {
            wall_tile()
        })
    &&& forall|x: int, y: int| in_bounds(g, x, y) ==> is_canonical(#[trigger] tile_at(g, x, y))
    &&& spawn == spawn_of(rooms)
    &&& (spawn matches Some(s) ==> in_bounds(g, s.0 as int, s.1 as int) && tile_at(
        g,
        s.0 as int,
        s.1 as int,
    ) == floor_tile())
}

/// Produce a ready-to-play grid from an explicit configuration: allocate a
/// fully-walled `width x height` grid, validate every room and tunnel
/// before any carving, then carve each room interior and each tunnel span.
/// A configuration whose geometry leaves the grid, or a room of
/// non-positive size, or a negative dimension, aborts with
/// `InvalidGeometry` before anything is carved.
pub fn generate(width: i32, height: i32, rooms: &Vec<Rect>, tunnels: &Vec<Tunnel>) -> (r: Result<
    (Grid, Option<(i32, i32)>),
    GridError,
>)
    ensures
        r is Ok <==> 0 <= width && 0 <= height && config_valid(
            width as int,
            height as int,
            rooms@,
            tunnels@,
        ),
        r is Err ==> r == Err::<(Grid, Option<(i32, i32)>), GridError>(GridError::InvalidGeometry),
        r matches Ok(out) ==> generation_ok(
            gview(out.0),
            out.1,
            width as int,
            height as int,
            rooms@,
            tunnels@,
        ),
{
    if width < 0 || height < 0 {
        return Err(GridError::InvalidGeometry);
    }
    let mut i: usize = 0;
    while i < rooms.len()
        invariant
            i <= rooms@.len(),
            forall|k: int|
                0 <= k < i ==> room_valid(#[trigger] rooms@[k], width as int, height as int),
        decreases rooms@.len() - i,
    {
        let rm = rooms[i];
        if !(0 <= rm.x1 && rm.x1 < rm.x2 && rm.x2 < width && 0 <= rm.y1 && rm.y1 < rm.y2 && rm.y2
            < height) {
            return Err(GridError::InvalidGeometry);
        }
        i = i + 1;
    }
    let mut j: usize = 0;
    while j < tunnels.len()
        invariant
            j <= tunnels@.len(),
            forall|k: int|
                0 <= k < j ==> tunnel_valid(#[trigger] tunnels@[k], width as int, height as int),
        decreases tunnels@.len() - j,
    {
        let ok: bool = match tunnels[j] {
            Tunnel::Horizontal { x1, x2, y } => 0 <= x1 && x1 < width && 0 <= x2 && x2 < width
                && 0 <= y && y < height,
            Tunnel::Vertical { y1, y2, x } => 0 <= y1 && y1 < height && 0 <= y2 && y2 < height
                && 0 <= x && x < width,
        };
        if !ok {
            return Err(GridError::InvalidGeometry);
        }
        j = j + 1;
    }
    let w: usize = width as usize;
    let h: usize = height as usize;
    let mut map: Grid = Vec::new();
    while map.len() < w
        invariant
            map@.len() <= w,
            forall|a: int| 0 <= a < map@.len() ==> (#[trigger] map@[a])@.len() == h,
            forall|a: int, b: int|
                0 <= a < map@.len() && 0 <= b < h ==> (#[trigger] map@[a]@[b]) == wall_tile(),
        decreases w - map@.len(),
    {
        let mut col: Vec<Tile> = Vec::new();
        while col.len() < h
            invariant
                col@.len() <= h,
                forall|b: int| 0 <= b < col@.len() ==> (#[trigger] col@[b]) == wall_tile(),
            decreases h - col@.len(),
        {
            col.push(Tile::wall());
        }
        map.push(col);
    }
    let mut i: usize = 0;
    while i < rooms.len()
        invariant
            i <= rooms@.len(),
            0 <= width,
            0 <= height,
            config_valid(width as int, height as int, rooms@, tunnels@),
            wf_grid(gview(map)),
            width_of(gview(map)) == width as int,
            forall|a: int|
                0 <= a < gview(map).len() ==> (#[trigger] gview(map)[a]).len() == height as int,
            forall|x: int, y: int|
                in_bounds(gview(map), x, y) ==> #[trigger] tile_at(gview(map), x, y) == (
                if cell_in_rooms_prefix(rooms@, i as int, x, y) {
                    floor_tile()
                } else {
                    wall_tile()
                }),
        decreases rooms@.len() - i,
    {
        let rm = rooms[i];
        proof {
            assert(room_valid(rooms@[i as int], width as int, height as int));
            assert(0 < gview(map).len() && gview(map)[0].len() == height as int);
            assert(room_carve_ok(rm, width_of(gview(map)), height_of(gview(map))));
        }
        let ghost gprev = gview(map);
        carve_room(rm, &mut map);
        proof {
            assert(gview(map).len() == gprev.len());
            assert forall|a: int| 0 <= a < gprev.len() implies (#[trigger] gview(map)[a]).len()
                == gprev[a].len() by {}
            assert forall|x: int, y: int| in_bounds(gview(map), x, y) implies #[trigger] tile_at(
                gview(map),
                x,
                y,
            ) == (if cell_in_rooms_prefix(rooms@, i + 1, x, y) {
                floor_tile()
            } else {
                wall_tile()
            }) by {
                assert(in_bounds(gprev, x, y));
                let pt = tile_at(gprev, x, y);
                assert(tile_at(gview(map), x, y) == (if in_room_interior(rm, x, y) {
                    floor_tile()
                } else {
                    pt
                }));
                if in_room_interior(rm, x, y) {
                    assert(cell_in_rooms_prefix(rooms@, i + 1, x, y));
                } else {
                    if cell_in_rooms_prefix(rooms@, i + 1, x, y) {
                        let k = choose|k: int|
                            0 <= k < i + 1 && in_room_interior(#[trigger] rooms@[k], x, y);
                        assert(k < i);
                        assert(cell_in_rooms_prefix(rooms@, i as int, x, y));
                    }
                }
            }
        }
        i = i + 1;
    }
    let mut j: usize = 0;
    while j < tunnels.len()
        invariant
            j <= tunnels@.len(),
            0 <= width,
            0 <= height,
            config_valid(width as int, height as int, rooms@, tunnels@),
            wf_grid(gview(map)),
            width_of(gview(map)) == width as int,
            forall|a: int|
                0 <= a < gview(map).len() ==> (#[trigger] gview(map)[a]).len() == height as int,
            forall|x: int, y: int|
                in_bounds(gview(map), x, y) ==> #[trigger] tile_at(gview(map), x, y) == (
                if cell_in_rooms_prefix(rooms@, rooms@.len() as int, x, y) || cell_in_tunnels_prefix(
                    tunnels@,
                    j as int,
                    x,
                    y,
                ) {
                    floor_tile()
                } else {
                    wall_tile()
                }),
        decreases tunnels@.len() - j,
    {
        let t = tunnels[j];
        proof {
            assert(tunnel_valid(tunnels@[j as int], width as int, height as int));
            assert(0 < gview(map).len() && gview(map)[0].len() == height as int);
        }
        let ghost gprev = gview(map);
        match t {
            Tunnel::Horizontal { x1, x2, y } => {
                proof {
                    assert(h_tunnel_ok(
                        x1 as int,
                        x2 as int,
                        y as int,
                        width_of(gview(map)),
                        height_of(gview(map)),
                    ));
                }
                carve_h_tunnel(x1, x2, y, &mut map);
                proof {
                    assert forall|cx: int, cy: int|
                        0 <= cx < gprev.len() && 0 <= cy < gprev[cx].len() implies #[trigger] gview(
                        map,
                    )[cx][cy] == (if tunnel_contains(tunnels@[j as int], cx, cy) {
                        floor_tile()
                    } else {
                        gprev[cx][cy]
                    }) by {}
                }
            },
            Tunnel::Vertical { y1, y2, x } => {
                proof {
                    assert(v_tunnel_ok(
                        y1 as int,
                        y2 as int,
                        x as int,
                        width_of(gview(map)),
                        height_of(gview(map)),
                    ));
                }
                carve_v_tunnel(y1, y2, x, &mut map);
                proof {
                    assert forall|cx: int, cy: int|
                        0 <= cx < gprev.len() && 0 <= cy < gprev[cx].len() implies #[trigger] gview(
                        map,
                    )[cx][cy] == (if tunnel_contains(tunnels@[j as int], cx, cy) {
                        floor_tile()
                    } else {
                        gprev[cx][cy]
                    }) by {}
                }
            },
        }
        proof {
            assert(gview(map).len() == gprev.len());
            assert forall|a: int| 0 <= a < gprev.len() implies (#[trigger] gview(map)[a]).len()
                == gprev[a].len() by {}
            assert forall|x: int, y: int| in_bounds(gview(map), x, y) implies #[trigger] tile_at(
                gview(map),
                x,
                y,
            ) == (if cell_in_rooms_prefix(rooms@, rooms@.len() as int, x, y)
                || cell_in_tunnels_prefix(tunnels@, j + 1, x, y) {
                floor_tile()
            } else {
                wall_tile()
            }) by {
                assert(in_bounds(gprev, x, y));
                let pt = tile_at(gprev, x, y);
                assert(tile_at(gview(map), x, y) == (if tunnel_contains(tunnels@[j as int], x, y) {
                    floor_tile()
                } else {
                    pt
                }));
                if tunnel_contains(tunnels@[j as int], x, y) {
                    assert(cell_in_tunnels_prefix(tunnels@, j + 1, x, y));
                } else {
                    if cell_in_tunnels_prefix(tunnels@, j + 1, x, y) {
                        let k = choose|k: int|
                            0 <= k < j + 1 && tunnel_contains(#[trigger] tunnels@[k], x, y);
                        assert(k < j);
                        assert(cell_in_tunnels_prefix(tunnels@, j as int, x, y));
                    }
                }
            }
        }
        j = j + 1;
    }
    let spawn: Option<(i32, i32)> = if rooms.len() > 0 {
        let r0 = rooms[0];
        proof {
            assert(room_valid(rooms@[0], width as int, height as int));
        }
        if r0.x1 + 2 <= r0.x2 && r0.y1 + 2 <= r0.y2 {
            let cx: i32 = (((r0.x1 as u64) + (r0.x2 as u64)) / 2) as i32;
            let cy: i32 = (((r0.y1 as u64) + (r0.y2 as u64)) / 2) as i32;
            proof {
                assert(cx == room_center(rooms@[0]).0);
                assert(cy == room_center(rooms@[0]).1);
                assert(in_room_interior(rooms@[0], cx as int, cy as int));
                assert(cell_carved(rooms@, tunnels@, cx as int, cy as int));
            }
            Some((cx, cy))
        } else {
            None
        }
    } else {
        None
    };
    Ok((map, spawn))
}

/// The fixed layout's rooms: one rectangle at origin `(20, 15)` and one at
/// `(50, 15)`, each sized `10 x 15`.
pub open spec fn fixed_rooms() -> Seq<Rect> {
    seq![
        Rect { x1: 20, y1: 15, x2: 30, y2: 30 },
        Rect { x1: 50, y1: 15, x2: 60, y2: 30 },
    ]
}

/// The fixed layout's single tunnel: horizontal at `y = 23`, spanning
/// `x = 25 .. 55`, which crosses both rooms' open interiors.
pub open spec fn fixed_tunnels() -> Seq<Tunnel> {
    seq![Tunnel::Horizontal { x1: 25, x2: 55, y: 23 }]
}

/// Generate the fixed-layout level: an `80 x 50` grid with two rooms joined
/// by one horizontal tunnel, and the spawn point at the center of the first
/// room, `(25, 22)`.
pub fn make_map() -> (r: (Grid, (i32, i32)))
    ensures
        generation_ok(
            gview(r.0),
            Some(r.1),
            MAP_WIDTH as int,
            MAP_HEIGHT as int,
            fixed_rooms(),
            fixed_tunnels(),
        ),
        r.1 == (25i32, 22i32),
{
    let mut rooms: Vec<Rect> = Vec::new();
    rooms.push(Rect::new(20, 15, 10, 15));
    rooms.push(Rect::new(50, 15, 10, 15));
    let mut tunnels: Vec<Tunnel> = Vec::new();
    tunnels.push(Tunnel::Horizontal { x1: 25, x2: 55, y: 23 });
    proof {
        assert(rooms@ =~= fixed_rooms());
        assert(tunnels@ =~= fixed_tunnels());
        assert forall|k: int| 0 <= k < fixed_rooms().len() implies room_valid(
            #[trigger] fixed_rooms()[k],
            MAP_WIDTH as int,
            MAP_HEIGHT as int,
        ) by {
            if k == 0 {
                assert(room_valid(fixed_rooms()[0], MAP_WIDTH as int, MAP_HEIGHT as int));
            } else {
                assert(room_valid(fixed_rooms()[1], MAP_WIDTH as int, MAP_HEIGHT as int));
            }
        }
        assert(tunnel_valid(fixed_tunnels()[0], MAP_WIDTH as int, MAP_HEIGHT as int));
        assert(config_valid(MAP_WIDTH as int, MAP_HEIGHT as int, rooms@, tunnels@));
    }
    let result = generate(MAP_WIDTH, MAP_HEIGHT, &rooms, &tunnels);
    match result {
        Ok((map, Some(spawn))) => (map, spawn),
        _ => vstd::pervasive::unreached(),
    }
}

} // verus!
