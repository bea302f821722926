use vstd::prelude::*;
use crate::carve::carve_h_spec;
use crate::carve::carve_room_spec;
use crate::carve::carve_v_spec;
use crate::geometry::Rect;
use crate::tile::Tile;

verus! {

/// Carving is idempotent: carving the same room twice yields the same grid
/// as carving it once, because carving only ever sets tiles to floor.
pub proof fn lemma_carve_room_idempotent(g: Seq<Seq<Tile>>, room: Rect)
    ensures
        carve_room_spec(carve_room_spec(g, room), room) == carve_room_spec(g, room),
{
    assert(carve_room_spec(carve_room_spec(g, room), room) =~~= carve_room_spec(g, room));
}

/// Carving two rooms is order-independent: each carve sets every cell it
/// touches to the same floor state, so overlaps never disagree.
pub proof fn lemma_carve_room_commutes(g: Seq<Seq<Tile>>, a: Rect, b: Rect)
    ensures
        carve_room_spec(carve_room_spec(g, a), b) == carve_room_spec(carve_room_spec(g, b), a),
{
    assert(carve_room_spec(carve_room_spec(g, a), b) =~~= carve_room_spec(
        carve_room_spec(g, b),
        a,
    ));
}

/// A room carve and a horizontal tunnel carve commute as well.
pub proof fn lemma_carve_room_h_tunnel_commutes(
    g: Seq<Seq<Tile>>,
    room: Rect,
    x1: int,
    x2: int,
    y: int,
)
    ensures
        carve_h_spec(carve_room_spec(g, room), x1, x2, y) == carve_room_spec(
            carve_h_spec(g, x1, x2, y),
            room,
        ),
{
    assert(carve_h_spec(carve_room_spec(g, room), x1, x2, y) =~~= carve_room_spec(
        carve_h_spec(g, x1, x2, y),
        room,
    ));
}

/// A room carve and a vertical tunnel carve commute as well.
pub proof fn lemma_carve_room_v_tunnel_commutes(
    g: Seq<Seq<Tile>>,
    room: Rect,
    y1: int,
    y2: int,
    x: int,
)
    ensures
        carve_v_spec(carve_room_spec(g, room), y1, y2, x) == carve_room_spec(
            carve_v_spec(g, y1, y2, x),
            room,
        ),
{
    assert(carve_v_spec(carve_room_spec(g, room), y1, y2, x) =~~= carve_room_spec(
        carve_v_spec(g, y1, y2, x),
        room,
    ));
}

/// Order independence of a whole layout: carving room `a`, then room `b`,
/// then a horizontal tunnel yields a grid identical to carving `b`, then
/// `a`, then the same tunnel.
pub proof fn lemma_carve_order_independent(
    g: Seq<Seq<Tile>>,
    a: Rect,
    b: Rect,
    x1: int,
    x2: int,
    y: int,
)
    ensures
        carve_h_spec(carve_room_spec(carve_room_spec(g, a), b), x1, x2, y) == carve_h_spec(
            carve_room_spec(carve_room_spec(g, b), a),
            x1,
            x2,
            y,
        ),
{
    lemma_carve_room_commutes(g, a, b);
}

} // verus!
