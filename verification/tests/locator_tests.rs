//! The bounds index, the per-step locator, and the assembled level.

use room_layout::bounds::{RoomBounds, RoomBoundsData, extract_room_bounds, locate};
use room_layout::geometry::Point3;
use room_layout::hud::room_display_text;
use room_layout::map::{level_rooms, setup_map};
use room_layout::room::{Room, WallSet, WallType};

fn room(name: &str, extension: i64, empty_side: WallSet, door_side: WallSet, offset: Point3) -> Room {
    Room {
        name: String::from(name),
        wall_height: 100,
        door_radius: 30,
        extension,
        empty_side,
        door_side,
        offset,
    }
}

fn two_room_level() -> Vec<Room> {
    vec![
        room(
            "Room A",
            0,
            WallSet::none().with(WallType::EAST),
            WallSet::none(),
            Point3::new(0, 0, 0),
        ),
        room(
            "Room B",
            100,
            WallSet::none(),
            WallSet::none().with(WallType::WEST),
            Point3::new(700, 0, 0),
        ),
    ]
}

#[test]
fn compute_bounds_preserves_order_and_names() {
    let rooms = two_room_level();
    let data = extract_room_bounds(&rooms);
    assert_eq!(data.bounds.len(), 2);
    assert_eq!(data.bounds[0].name, "Room A");
    assert_eq!(data.bounds[1].name, "Room B");
    assert_eq!(data.bounds[0].min, Point3::new(-150, -50, -150));
    assert_eq!(data.bounds[0].max, Point3::new(150, 100, 150));
    assert_eq!(data.bounds[1].min, Point3::new(500, -50, -200));
    assert_eq!(data.bounds[1].max, Point3::new(900, 100, 200));
}

#[test]
fn two_room_round_trip() {
    let data = extract_room_bounds(&two_room_level());
    // Between the rooms: inside neither box.
    assert_eq!(locate(Point3::new(350, 0, 0), &data), None);
    assert_eq!(
        locate(Point3::new(50, 0, 0), &data),
        Some(String::from("Room A"))
    );
    assert_eq!(
        locate(Point3::new(750, 0, 0), &data),
        Some(String::from("Room B"))
    );
}

fn overlapping_index() -> RoomBoundsData {
    RoomBoundsData {
        bounds: vec![
            RoomBounds {
                name: String::from("First"),
                min: Point3::new(0, 0, 0),
                max: Point3::new(100, 100, 100),
            },
            RoomBounds {
                name: String::from("Second"),
                min: Point3::new(50, 0, 0),
                max: Point3::new(200, 100, 100),
            },
        ],
    }
}

#[test]
fn point_in_exactly_one_box() {
    let data = overlapping_index();
    assert_eq!(
        locate(Point3::new(150, 50, 50), &data),
        Some(String::from("Second"))
    );
}

#[test]
fn point_in_no_box() {
    let data = overlapping_index();
    assert_eq!(locate(Point3::new(300, 50, 50), &data), None);
}

#[test]
fn overlap_resolved_by_construction_order() {
    let data = overlapping_index();
    assert_eq!(
        locate(Point3::new(75, 50, 50), &data),
        Some(String::from("First"))
    );
}

#[test]
fn containment_is_inclusive_on_faces() {
    let data = overlapping_index();
    assert_eq!(
        locate(Point3::new(0, 0, 0), &data),
        Some(String::from("First"))
    );
    assert_eq!(
        locate(Point3::new(200, 100, 100), &data),
        Some(String::from("Second"))
    );
}

#[test]
fn level_room_list_is_authored_in_order() {
    let rooms = level_rooms();
    assert_eq!(rooms.len(), 13);
    assert_eq!(rooms[0].name, "Entry Area");
    assert_eq!(rooms[1].name, "Tutorial Area");
    assert_eq!(rooms[9].name, "Hidden Room 1");
    assert_eq!(rooms[11].name, "Boss Room");
    assert_eq!(rooms[12].name, "Final Reward Room");
}

#[test]
fn assembled_level_has_one_box_and_one_geometry_per_room() {
    let map = setup_map().expect("the authored level always builds");
    assert_eq!(map.rooms.len(), 13);
    assert_eq!(map.bounds.bounds.len(), 13);
    assert_eq!(map.geometry.len(), 13);
    for (room, bounds) in map.rooms.iter().zip(map.bounds.bounds.iter()) {
        assert_eq!(room.name, bounds.name);
    }
}

#[test]
fn player_spawn_is_in_the_entry_area() {
    let map = setup_map().expect("the authored level always builds");
    assert_eq!(
        locate(Point3::new(0, 0, 0), &map.bounds),
        Some(String::from("Entry Area"))
    );
}

#[test]
fn boss_room_is_found_at_its_center() {
    let map = setup_map().expect("the authored level always builds");
    assert_eq!(
        locate(Point3::new(2000, 0, -500), &map.bounds),
        Some(String::from("Boss Room"))
    );
}

#[test]
fn space_between_rooms_resolves_to_no_room() {
    let map = setup_map().expect("the authored level always builds");
    assert_eq!(locate(Point3::new(350, 0, 0), &map.bounds), None);
}

#[test]
fn display_text_shows_name_or_empty() {
    assert_eq!(room_display_text(Some("Boss Room")), "Boss Room");
    assert_eq!(room_display_text(None), "");
}
