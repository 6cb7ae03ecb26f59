//! Geometry synthesis: room bounds, wall slots, door openings, whole rooms.

use room_layout::builder::{make_roof, make_room};
use room_layout::constants::{BASE_ROOM_SIZE, GROUND_HEIGHT, WALL_THICKNESS};
use room_layout::geometry::Point3;
use room_layout::room::{ConfigError, Room, WallOrientation, WallSet, WallType};
use room_layout::walls::{
    WallPieceKind, build_wall_slot, make_east_wall, make_north_wall, make_solid_wall,
    make_south_wall, make_west_wall, spawn_wall_with_hole,
};

fn room(
    name: &str,
    extension: i64,
    empty_side: WallSet,
    door_side: WallSet,
    offset: Point3,
) -> Room {
    Room {
        name: String::from(name),
        wall_height: 100,
        door_radius: 30,
        extension,
        empty_side,
        door_side,
        offset,
    }
}

#[test]
fn bounds_formula_extended_room() {
    // Half-extent 40 units = 400 tenths; the box spans half of it each way,
    // a 5-unit margin below and the wall height above.
    let r = room(
        "Tutorial Area",
        100,
        WallSet::none(),
        WallSet::none(),
        Point3::new(700, 0, 0),
    );
    let (min, max) = r.get_bounds();
    assert_eq!(min, Point3::new(500, -50, -200));
    assert_eq!(max, Point3::new(900, 100, 200));
}

#[test]
fn bounds_formula_base_room() {
    let r = room(
        "Entry Area",
        0,
        WallSet::none(),
        WallSet::none(),
        Point3::new(0, 0, 0),
    );
    let (min, max) = r.get_bounds();
    assert_eq!(min, Point3::new(-150, -50, -150));
    assert_eq!(max, Point3::new(150, 100, 150));
}

#[test]
fn solid_wall_positions() {
    let offset = Point3::new(0, 0, 0);
    let n = make_north_wall(300, offset, 100, WALL_THICKNESS);
    assert_eq!(n.kind, WallPieceKind::Solid);
    assert_eq!(n.orientation, WallOrientation::AlongX);
    assert_eq!(n.geom.center, Point3::new(0, 50, 300));
    assert_eq!(n.geom.half, Point3::new(300, 50, 5));

    let s = make_south_wall(300, offset, 100, WALL_THICKNESS);
    assert_eq!(s.geom.center, Point3::new(0, 50, -300));

    let w = make_west_wall(300, offset, 100, WALL_THICKNESS);
    assert_eq!(w.orientation, WallOrientation::AlongZ);
    assert_eq!(w.geom.center, Point3::new(-300, 50, 0));
    assert_eq!(w.geom.half, Point3::new(5, 50, 300));

    let e = make_east_wall(300, offset, 100, WALL_THICKNESS);
    assert_eq!(e.geom.center, Point3::new(300, 50, 0));
}

#[test]
fn solid_wall_translated_by_offset() {
    let offset = Point3::new(700, 0, -1400);
    let n = make_solid_wall(WallType::NORTH, 400, offset, 100, WALL_THICKNESS);
    assert_eq!(n.geom.center, Point3::new(700, 50, -1000));
    assert_eq!(n.geom.half, Point3::new(400, 50, 5));
}

#[test]
fn door_wall_three_pieces() {
    // Door radius 3 units under a 10-unit wall: lintel height 4 units.
    let pieces = spawn_wall_with_hole(
        WALL_THICKNESS,
        100,
        30,
        300,
        Point3::new(0, 0, 300),
        0,
        WallOrientation::AlongX,
    )
    .expect("a 3-unit door fits under a 10-unit wall");
    assert_eq!(pieces.len(), 3);

    let lintel = &pieces[0];
    assert_eq!(lintel.kind, WallPieceKind::Lintel);
    assert_eq!(lintel.geom.half.y * 2, 40);
    assert_eq!(lintel.geom.center, Point3::new(0, 80, 300));
    assert_eq!(lintel.geom.half, Point3::new(300, 20, 5));

    let left = &pieces[1];
    let right = &pieces[2];
    assert_eq!(left.kind, WallPieceKind::Jamb);
    assert_eq!(right.kind, WallPieceKind::Jamb);
    // Jambs: full height, width (span - radius), centered (span + radius) / 2
    // to each side of the opening.
    assert_eq!(left.geom.center, Point3::new(-165, 50, 300));
    assert_eq!(right.geom.center, Point3::new(165, 50, 300));
    assert_eq!(left.geom.half, Point3::new(135, 50, 5));
    assert_eq!(right.geom.half, Point3::new(135, 50, 5));
}

#[test]
fn door_wall_along_z() {
    let pieces = spawn_wall_with_hole(
        WALL_THICKNESS,
        100,
        30,
        300,
        Point3::new(-300, 0, 0),
        0,
        WallOrientation::AlongZ,
    )
    .expect("a 3-unit door fits under a 10-unit wall");
    assert_eq!(pieces[0].geom.center, Point3::new(-300, 80, 0));
    assert_eq!(pieces[0].geom.half, Point3::new(5, 20, 300));
    assert_eq!(pieces[1].geom.center, Point3::new(-300, 50, -165));
    assert_eq!(pieces[2].geom.center, Point3::new(-300, 50, 165));
}

#[test]
fn door_wall_respects_extension() {
    let pieces = spawn_wall_with_hole(
        WALL_THICKNESS,
        100,
        30,
        300,
        Point3::new(0, 0, 0),
        100,
        WallOrientation::AlongZ,
    )
    .expect("a 3-unit door fits under a 10-unit wall");
    assert_eq!(pieces[0].geom.half.z, 400);
    assert_eq!(pieces[1].geom.center.z, -215);
    assert_eq!(pieces[1].geom.half.z, 185);
}

#[test]
fn door_as_tall_as_wall_is_refused() {
    // Door radius 5 units under a 10-unit wall: lintel height would be 0.
    let r = spawn_wall_with_hole(
        WALL_THICKNESS,
        100,
        50,
        300,
        Point3::new(0, 0, 300),
        0,
        WallOrientation::AlongX,
    );
    assert_eq!(r.unwrap_err(), ConfigError::DoorTooLarge);
}

#[test]
fn door_taller_than_wall_is_refused() {
    let r = spawn_wall_with_hole(
        WALL_THICKNESS,
        100,
        60,
        300,
        Point3::new(0, 0, 300),
        0,
        WallOrientation::AlongX,
    );
    assert_eq!(r.unwrap_err(), ConfigError::DoorTooLarge);
}

#[test]
fn wall_slot_policies() {
    let empty = WallSet::none().with(WallType::EAST);
    let door = WallSet::none().with(WallType::WEST);
    let offset = Point3::new(0, 0, 0);

    let none = build_wall_slot(WallType::EAST, 300, WALL_THICKNESS, 100, 30, offset, &empty, &door)
        .expect("an empty side never fails");
    assert!(none.is_none());

    let solid = build_wall_slot(WallType::NORTH, 300, WALL_THICKNESS, 100, 30, offset, &empty, &door)
        .expect("a solid wall never fails")
        .expect("a non-empty slot emits a group");
    assert_eq!(solid.wall, WallType::NORTH);
    assert_eq!(solid.pieces.len(), 1);
    assert_eq!(solid.pieces[0].kind, WallPieceKind::Solid);

    let opened = build_wall_slot(WallType::WEST, 300, WALL_THICKNESS, 100, 30, offset, &empty, &door)
        .expect("a fitting door never fails")
        .expect("a non-empty slot emits a group");
    assert_eq!(opened.wall, WallType::WEST);
    assert_eq!(opened.pieces.len(), 3);
}

#[test]
fn empty_side_overrides_door_side() {
    // A slot in both sets is omitted, and its door is never validated.
    let both = WallSet::none().with(WallType::NORTH);
    let r = build_wall_slot(
        WallType::NORTH,
        300,
        WALL_THICKNESS,
        100,
        60,
        Point3::new(0, 0, 0),
        &both,
        &both,
    );
    assert!(r.expect("an empty side never fails").is_none());
}

#[test]
fn roof_sits_on_walls() {
    let b = make_roof(100, Point3::new(700, 0, 0), 100);
    assert_eq!(b.center, Point3::new(700, 101, 0));
    assert_eq!(b.half, Point3::new(400, 1, 400));
}

#[test]
fn room_wall_group_count_matches_empty_sides() {
    let offset = Point3::new(0, 0, 0);
    for empties in 0..4u32 {
        let mut empty = WallSet::none();
        let slots = WallType::all();
        for k in 0..empties {
            empty = empty.with(slots[k as usize]);
        }
        let g = make_room(100, 30, offset, 0, empty, WallSet::none())
            .expect("solid rooms always build");
        assert_eq!(g.walls.len(), 4 - empties as usize);
    }
}

#[test]
fn room_groups_follow_canonical_order_and_policy() {
    let empty = WallSet::none().with(WallType::EAST);
    let door = WallSet::none().with(WallType::WEST);
    let g = make_room(100, 30, Point3::new(0, 0, 0), 0, empty, door)
        .expect("a fitting configuration builds");
    assert_eq!(g.walls.len(), 3);
    assert_eq!(g.walls[0].wall, WallType::NORTH);
    assert_eq!(g.walls[1].wall, WallType::SOUTH);
    assert_eq!(g.walls[2].wall, WallType::WEST);
    assert_eq!(g.walls[0].pieces.len(), 1);
    assert_eq!(g.walls[1].pieces.len(), 1);
    assert_eq!(g.walls[2].pieces.len(), 3);
}

#[test]
fn room_floor_roof_and_lights() {
    let g = make_room(100, 30, Point3::new(700, 0, 0), 100, WallSet::none(), WallSet::none())
        .expect("solid rooms always build");
    assert_eq!(g.floor.center, Point3::new(700, -GROUND_HEIGHT, 0));
    assert_eq!(g.floor.half, Point3::new(400, GROUND_HEIGHT, 400));
    assert_eq!(g.roof.center, Point3::new(700, 101, 0));
    assert_eq!(g.key_light.position, Point3::new(800, 200, 100));
    assert_eq!(g.key_light.target, Point3::new(700, 0, 0));
    assert_eq!(g.fill_light.position, Point3::new(700, 70, 0));
    assert_eq!(g.fill_light.range, 800);
}

#[test]
fn room_with_oversized_door_is_refused() {
    let door = WallSet::none().with(WallType::NORTH);
    let r = make_room(100, 50, Point3::new(0, 0, 0), 0, WallSet::none(), door);
    assert_eq!(r.unwrap_err(), ConfigError::DoorTooLarge);
}

#[test]
fn room_with_oversized_door_on_empty_side_builds() {
    // The door policy is only read on slots that are not empty sides.
    let side = WallSet::none().with(WallType::NORTH);
    let g = make_room(100, 50, Point3::new(0, 0, 0), 0, side, side)
        .expect("the oversized door is on an omitted wall");
    assert_eq!(g.walls.len(), 3);
}

#[test]
fn room_shrunk_away_is_refused() {
    let r = make_room(100, 30, Point3::new(0, 0, 0), -BASE_ROOM_SIZE, WallSet::none(), WallSet::none());
    assert_eq!(r.unwrap_err(), ConfigError::NonPositiveGroundSize);
}

#[test]
fn ground_size_error_reported_before_door_error() {
    let door = WallSet::none().with(WallType::NORTH);
    let r = make_room(100, 50, Point3::new(0, 0, 0), -400, WallSet::none(), door);
    assert_eq!(r.unwrap_err(), ConfigError::NonPositiveGroundSize);
}

#[test]
fn largest_accepted_extension_builds() {
    let extension = 1_000_000_000 - BASE_ROOM_SIZE;
    let g = make_room(100, 30, Point3::new(0, 0, 0), extension, WallSet::none(), WallSet::none())
        .expect("the largest room still builds");
    assert_eq!(g.floor.half.x, 1_000_000_000);
    assert_eq!(g.fill_light.range, 2_000_000_000);
}

#[test]
fn wall_type_all_is_canonical() {
    let all = WallType::all();
    assert_eq!(
        all,
        vec![WallType::NORTH, WallType::SOUTH, WallType::WEST, WallType::EAST]
    );
}

#[test]
fn wall_set_contains_inserted_slots() {
    let s = WallSet::none().with(WallType::NORTH).with(WallType::EAST);
    assert!(s.contains(WallType::NORTH));
    assert!(s.contains(WallType::EAST));
    assert!(!s.contains(WallType::SOUTH));
    assert!(!s.contains(WallType::WEST));
}

#[test]
fn orientations_follow_axes() {
    assert_eq!(WallType::NORTH.orientation(), WallOrientation::AlongX);
    assert_eq!(WallType::SOUTH.orientation(), WallOrientation::AlongX);
    assert_eq!(WallType::WEST.orientation(), WallOrientation::AlongZ);
    assert_eq!(WallType::EAST.orientation(), WallOrientation::AlongZ);
}
