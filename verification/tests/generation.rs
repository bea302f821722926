use dungeon::generate;
use dungeon::is_blocked;
use dungeon::is_blocking_sight;
use dungeon::make_map;
use dungeon::Grid;
use dungeon::GridError;
use dungeon::Rect;
use dungeon::Tile;
use dungeon::Tunnel;
use dungeon::MAP_HEIGHT;
use dungeon::MAP_WIDTH;

/// Whether the fixed layout carves the cell at `(x, y)`: strictly inside one
/// of the two rooms, or on the tunnel's inclusive span.
fn fixed_layout_floor(x: i32, y: i32) -> bool {
    let in_room1: bool = 21 <= x && x < 30 && 16 <= y && y < 30;
    let in_room2: bool = 51 <= x && x < 60 && 16 <= y && y < 30;
    let in_tunnel: bool = y == 23 && 25 <= x && x <= 55;
    in_room1 || in_room2 || in_tunnel
}

#[test]
fn fixed_layout_reference_tiles() {
    let (map, _spawn) = make_map();
    assert!(!is_blocked(&map, 25, 23));
    assert!(is_blocked(&map, 0, 0));
    assert!(!is_blocked(&map, 21, 16));
    assert!(is_blocked(&map, 20, 15));
    assert!(!is_blocking_sight(&map, 25, 23));
    assert!(is_blocking_sight(&map, 0, 0));
}

#[test]
fn fixed_layout_dimensions() {
    let (map, _spawn) = make_map();
    assert_eq!(map.len(), MAP_WIDTH as usize);
    for col in &map {
        assert_eq!(col.len(), MAP_HEIGHT as usize);
    }
}

#[test]
fn fixed_layout_tiles_are_canonical() {
    let (map, _spawn) = make_map();
    for col in &map {
        for t in col {
            assert!(*t == Tile::empty() || *t == Tile::wall());
        }
    }
}

#[test]
fn fixed_layout_carving_is_precise() {
    let (map, _spawn) = make_map();
    for x in 0..MAP_WIDTH {
        for y in 0..MAP_HEIGHT {
            let expected: Tile = if fixed_layout_floor(x, y) {
                Tile::empty()
            } else {
                Tile::wall()
            };
            assert_eq!(map[x as usize][y as usize], expected);
        }
    }
}

#[test]
fn fixed_layout_spawn_is_room_center_on_floor() {
    let (map, spawn) = make_map();
    assert_eq!(spawn, (25, 22));
    assert!(!is_blocked(&map, spawn.0, spawn.1));
}

#[test]
fn generate_spawn_is_on_floor() {
    let rooms: Vec<Rect> = vec![Rect::new(3, 4, 6, 5), Rect::new(12, 2, 4, 4)];
    let tunnels: Vec<Tunnel> = vec![Tunnel::Horizontal { x1: 5, x2: 13, y: 6 }];
    let (map, spawn) = generate(20, 12, &rooms, &tunnels).unwrap();
    let (sx, sy) = spawn.unwrap();
    assert_eq!((sx, sy), (6, 6));
    assert!(!is_blocked(&map, sx, sy));
}

#[test]
fn generate_empty_config_is_all_wall_without_spawn() {
    let rooms: Vec<Rect> = Vec::new();
    let tunnels: Vec<Tunnel> = Vec::new();
    let (map, spawn) = generate(7, 5, &rooms, &tunnels).unwrap();
    assert_eq!(spawn, None);
    for col in &map {
        for t in col {
            assert_eq!(*t, Tile::wall());
        }
    }
}

#[test]
fn generate_thin_room_yields_no_spawn() {
    let rooms: Vec<Rect> = vec![Rect::new(2, 2, 1, 5)];
    let tunnels: Vec<Tunnel> = Vec::new();
    let (_map, spawn) = generate(20, 20, &rooms, &tunnels).unwrap();
    assert_eq!(spawn, None);
}

#[test]
fn generate_vertical_tunnel_carves_column() {
    let rooms: Vec<Rect> = Vec::new();
    let tunnels: Vec<Tunnel> = vec![Tunnel::Vertical { y1: 6, y2: 2, x: 4 }];
    let (map, _spawn) = generate(10, 10, &rooms, &tunnels).unwrap();
    for y in 0..10 {
        let expected: bool = !(2 <= y && y <= 6);
        assert_eq!(is_blocked(&map, 4, y), expected);
    }
    for x in 0..10 {
        if x != 4 {
            assert!(is_blocked(&map, x, 3));
        }
    }
}

#[test]
fn generate_boundary_geometry_is_accepted() {
    let rooms: Vec<Rect> = vec![Rect::new(0, 0, 9, 7)];
    let tunnels: Vec<Tunnel> = vec![Tunnel::Horizontal { x1: 0, x2: 9, y: 7 }];
    let (map, _spawn) = generate(10, 8, &rooms, &tunnels).unwrap();
    assert!(!is_blocked(&map, 9, 7));
    assert!(!is_blocked(&map, 0, 7));
    assert!(!is_blocked(&map, 8, 6));
    assert!(is_blocked(&map, 9, 6));
    assert!(is_blocked(&map, 0, 0));
}

#[test]
fn generate_room_past_boundary_is_invalid() {
    let rooms: Vec<Rect> = vec![Rect::new(0, 0, 10, 7)];
    let tunnels: Vec<Tunnel> = Vec::new();
    assert_eq!(
        generate(10, 8, &rooms, &tunnels),
        Err(GridError::InvalidGeometry)
    );
}

#[test]
fn generate_tunnel_past_boundary_is_invalid() {
    let rooms: Vec<Rect> = Vec::new();
    let h: Vec<Tunnel> = vec![Tunnel::Horizontal { x1: 0, x2: 10, y: 7 }];
    assert_eq!(generate(10, 8, &rooms, &h), Err(GridError::InvalidGeometry));
    let v: Vec<Tunnel> = vec![Tunnel::Vertical { y1: 0, y2: 8, x: 3 }];
    assert_eq!(generate(10, 8, &rooms, &v), Err(GridError::InvalidGeometry));
}

#[test]
fn generate_nonpositive_room_size_is_invalid() {
    let zero_w: Vec<Rect> = vec![Rect::new(5, 5, 0, 3)];
    let none: Vec<Tunnel> = Vec::new();
    assert_eq!(
        generate(20, 20, &zero_w, &none),
        Err(GridError::InvalidGeometry)
    );
    let neg_h: Vec<Rect> = vec![Rect::new(5, 5, 3, -2)];
    assert_eq!(
        generate(20, 20, &neg_h, &none),
        Err(GridError::InvalidGeometry)
    );
}

#[test]
fn generate_negative_origin_is_invalid() {
    let rooms: Vec<Rect> = vec![Rect::new(-1, 0, 5, 5)];
    let none: Vec<Tunnel> = Vec::new();
    assert_eq!(
        generate(20, 20, &rooms, &none),
        Err(GridError::InvalidGeometry)
    );
    let t: Vec<Tunnel> = vec![Tunnel::Horizontal { x1: -1, x2: 4, y: 2 }];
    let no_rooms: Vec<Rect> = Vec::new();
    assert_eq!(
        generate(20, 20, &no_rooms, &t),
        Err(GridError::InvalidGeometry)
    );
}

#[test]
fn generate_negative_dimension_is_invalid() {
    let rooms: Vec<Rect> = Vec::new();
    let tunnels: Vec<Tunnel> = Vec::new();
    assert_eq!(
        generate(-1, 8, &rooms, &tunnels),
        Err(GridError::InvalidGeometry)
    );
    assert_eq!(
        generate(8, -1, &rooms, &tunnels),
        Err(GridError::InvalidGeometry)
    );
}

fn walled_grid(width: i32, height: i32) -> Grid {
    let rooms: Vec<Rect> = Vec::new();
    let tunnels: Vec<Tunnel> = Vec::new();
    generate(width, height, &rooms, &tunnels).unwrap().0
}

#[test]
fn carve_room_twice_equals_once() {
    let room: Rect = Rect::new(2, 3, 6, 4);
    let mut once: Grid = walled_grid(12, 10);
    dungeon::carve::create_room(room, &mut once).unwrap();
    let mut twice: Grid = walled_grid(12, 10);
    dungeon::carve::create_room(room, &mut twice).unwrap();
    dungeon::carve::create_room(room, &mut twice).unwrap();
    assert_eq!(once, twice);
}

#[test]
fn carve_order_does_not_matter() {
    let room1: Rect = Rect::new(1, 1, 5, 5);
    let room2: Rect = Rect::new(4, 3, 5, 5);
    let mut forward: Grid = walled_grid(12, 10);
    dungeon::carve::create_room(room1, &mut forward).unwrap();
    dungeon::carve::create_room(room2, &mut forward).unwrap();
    dungeon::carve::create_h_tunnel(2, 8, 4, &mut forward).unwrap();
    let mut backward: Grid = walled_grid(12, 10);
    dungeon::carve::create_room(room2, &mut backward).unwrap();
    dungeon::carve::create_room(room1, &mut backward).unwrap();
    dungeon::carve::create_h_tunnel(2, 8, 4, &mut backward).unwrap();
    assert_eq!(forward, backward);
}
