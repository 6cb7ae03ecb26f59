//! The map assembler: the hand-authored room list defining one level, and
//! the one-shot expansion into the bounds index and all geometry.

use vstd::prelude::*;

use crate::bounds::{RoomBoundsData, bounds_match_room, extract_room_bounds};
use crate::builder::{RoomGeometry, make_room, room_geometry_ok};
use crate::geometry::Point3;
use crate::room::{ConfigError, Room, WallSet, WallType};
use vstd::string::StringExecFns;

verus! {

/// Everything one level expands to at load time: the authored room list,
/// the derived bounds index the locator reads every step, and the
/// geometry descriptors handed to the rendering and physics sink.
#[derive(Clone, Debug)]
pub struct MapData {
    pub rooms: Vec<Room>,
    pub bounds: RoomBoundsData,
    pub geometry: Vec<RoomGeometry>,
}

/// The authored level: an ordered, branching path of rooms from the entry
/// area through enemy and puzzle rooms to the boss and reward rooms.
/// Adjacent rooms connect either through door walls or through aligned
/// empty sides; the hidden room is reachable only through one of the
/// latter.
pub fn level_rooms() -> (r: Vec<Room>)
    ensures
        r@.len() == 13,
        forall|i: int| 0 <= i < r@.len() ==> (#[trigger] r@[i]).wf(),
        forall|i: int|
            0 <= i < r@.len() ==> 2 * (#[trigger] r@[i]).door_radius < r@[i].wall_height,
        forall|i: int, j: int|
            0 <= i < j < r@.len() ==> (#[trigger] r@[i]).name@ != (#[trigger] r@[j]).name@,
{
    proof {
        reveal_strlit("Entry Area");
        reveal_strlit("Tutorial Area");
        reveal_strlit("Enemy Area 1");
        reveal_strlit("Enemy Area 2");
        reveal_strlit("Enemy Area 3");
        reveal_strlit("Puzzle Room 1");
        reveal_strlit("Reward Room 1");
        reveal_strlit("Enemy Room 4");
        reveal_strlit("Puzzle Room 2");
        reveal_strlit("Hidden Room 1");
        reveal_strlit("Enemy Room 5");
        reveal_strlit("Boss Room");
        reveal_strlit("Final Reward Room");
    }
    let mut rooms: Vec<Room> = Vec::new();

    rooms.push(Room {
        name: String::from_str("Entry Area"),
        wall_height: 100,
        door_radius: 30,
        extension: 0,
        empty_side: WallSet::none().with(WallType::EAST),
        door_side: WallSet::none(),
        offset: Point3::new(0, 0, 0),
    });

    rooms.push(Room {
        name: String::from_str("Tutorial Area"),
        wall_height: 100,
        door_radius: 30,
        extension: 100,
        empty_side: WallSet::none(),
        door_side: WallSet::none().with(WallType::SOUTH).with(WallType::WEST),
        offset: Point3::new(700, 0, 0),
    });

    rooms.push(Room {
        name: String::from_str("Enemy Area 1"),
        wall_height: 100,
        door_radius: 30,
        extension: 0,
        empty_side: WallSet::none().with(WallType::NORTH).with(WallType::SOUTH),
        door_side: WallSet::none(),
        offset: Point3::new(700, 0, -700),
    });

    rooms.push(Room {
        name: String::from_str("Enemy Area 2"),
        wall_height: 100,
        door_radius: 30,
        extension: 100,
        empty_side: WallSet::none(),
        door_side: WallSet::none().with(WallType::NORTH).with(WallType::SOUTH),
        offset: Point3::new(700, 0, -1400),
    });

    rooms.push(Room {
        name: String::from_str("Enemy Area 3"),
        wall_height: 100,
        door_radius: 30,
        extension: 100,
        empty_side: WallSet::none().with(WallType::NORTH),
        door_side: WallSet::none().with(WallType::EAST).with(WallType::WEST),
        offset: Point3::new(700, 0, -2100),
    });

    rooms.push(Room {
        name: String::from_str("Puzzle Room 1"),
        wall_height: 100,
        door_radius: 30,
        extension: 0,
        empty_side: WallSet::none().with(WallType::EAST),
        door_side: WallSet::none().with(WallType::WEST),
        offset: Point3::new(0, 0, -2100),
    });

    rooms.push(Room {
        name: String::from_str("Reward Room 1"),
        wall_height: 100,
        door_radius: 30,
        extension: -100,
        empty_side: WallSet::none().with(WallType::EAST),
        door_side: WallSet::none(),
        offset: Point3::new(-500, 0, -2100),
    });

    rooms.push(Room {
        name: String::from_str("Enemy Room 4"),
        wall_height: 100,
        door_radius: 30,
        extension: 0,
        empty_side: WallSet::none().with(WallType::WEST),
        door_side: WallSet::none().with(WallType::EAST),
        offset: Point3::new(1400, 0, -2100),
    });

    rooms.push(Room {
        name: String::from_str("Puzzle Room 2"),
        wall_height: 100,
        door_radius: 30,
        extension: 0,
        empty_side: WallSet::none().with(WallType::WEST),
        door_side: WallSet::none().with(WallType::EAST).with(WallType::NORTH),
        offset: Point3::new(2000, 0, -2100),
    });

    rooms.push(Room {
        name: String::from_str("Hidden Room 1"),
        wall_height: 100,
        door_radius: 30,
        extension: 0,
        empty_side: WallSet::none().with(WallType::WEST),
        door_side: WallSet::none(),
        offset: Point3::new(2600, 0, -2100),
    });

    rooms.push(Room {
        name: String::from_str("Enemy Room 5"),
        wall_height: 100,
        door_radius: 30,
        extension: 100,
        empty_side: WallSet::none().with(WallType::SOUTH).with(WallType::NORTH),
        door_side: WallSet::none(),
        offset: Point3::new(2000, 0, -1400),
    });

    rooms.push(Room {
        name: String::from_str("Boss Room"),
        wall_height: 100,
        door_radius: 30,
        extension: 200,
        empty_side: WallSet::none(),
        door_side: WallSet::none().with(WallType::SOUTH).with(WallType::NORTH),
        offset: Point3::new(2000, 0, -500),
    });

    rooms.push(Room {
        name: String::from_str("Final Reward Room"),
        wall_height: 100,
        door_radius: 30,
        extension: -200,
        empty_side: WallSet::none().with(WallType::SOUTH),
        door_side: WallSet::none(),
        offset: Point3::new(2000, 0, 100),
    });

    proof {
        // The names differ pairwise: in length, in their first character,
        // or — among the equal-length "Enemy ..." and "Puzzle Room ..."
        // names — at the word or digit positions below.
        assert("Entry Area"@.len() == 10);
        assert("Tutorial Area"@.len() == 13);
        assert("Enemy Area 1"@.len() == 12);
        assert("Enemy Area 2"@.len() == 12);
        assert("Enemy Area 3"@.len() == 12);
        assert("Puzzle Room 1"@.len() == 13);
        assert("Reward Room 1"@.len() == 13);
        assert("Enemy Room 4"@.len() == 12);
        assert("Puzzle Room 2"@.len() == 13);
        assert("Hidden Room 1"@.len() == 13);
        assert("Enemy Room 5"@.len() == 12);
        assert("Boss Room"@.len() == 9);
        assert("Final Reward Room"@.len() == 17);
        assert("Tutorial Area"@[0] == 'T' && "Puzzle Room 1"@[0] == 'P' && "Reward Room 1"@[0]
            == 'R' && "Puzzle Room 2"@[0] == 'P' && "Hidden Room 1"@[0] == 'H');
        assert("Enemy Area 1"@[6] == 'A' && "Enemy Area 2"@[6] == 'A' && "Enemy Area 3"@[6] == 'A'
            && "Enemy Room 4"@[6] == 'R' && "Enemy Room 5"@[6] == 'R');
        assert("Enemy Area 1"@[11] == '1' && "Enemy Area 2"@[11] == '2' && "Enemy Area 3"@[11]
            == '3' && "Enemy Room 4"@[11] == '4' && "Enemy Room 5"@[11] == '5');
        assert("Puzzle Room 1"@[12] == '1' && "Puzzle Room 2"@[12] == '2');
    }
    rooms
}

/// Expands an authored room list once, at level load: the bounds index
/// first, then every room's geometry, in order.
pub fn assemble_map(rooms: Vec<Room>) -> (r: Result<MapData, ConfigError>)
    requires
        forall|i: int| 0 <= i < rooms@.len() ==> (#[trigger] rooms@[i]).wf(),
        forall|i: int|
            0 <= i < rooms@.len() ==> 2 * (#[trigger] rooms@[i]).door_radius < rooms@[
                i
            ].wall_height,
    ensures
        r is Ok,
        r matches Ok(m) ==> {
            &&& m.rooms@ == rooms@
            &&& m.bounds.bounds@.len() == rooms@.len()
            &&& forall|i: int|
                0 <= i < rooms@.len() ==> bounds_match_room(
                    #[trigger] m.bounds.bounds@[i],
                    rooms@[i],
                )
            &&& m.geometry@.len() == rooms@.len()
            &&& forall|i: int|
                0 <= i < rooms@.len() ==> room_geometry_ok(
                    #[trigger] m.geometry@[i],
                    rooms@[i].wall_height as int,
                    rooms@[i].door_radius as int,
                    rooms@[i].offset,
                    rooms@[i].extension as int,
                    rooms@[i].empty_side,
                    rooms@[i].door_side,
                )
        },
{
    let bounds = extract_room_bounds(&rooms);

    let mut geometry: Vec<RoomGeometry> = Vec::new();
    let mut i: usize = 0;
    while i < rooms.len()
        invariant
            0 <= i <= rooms@.len(),
            forall|j: int| 0 <= j < rooms@.len() ==> (#[trigger] rooms@[j]).wf(),
            forall|j: int|
                0 <= j < rooms@.len() ==> 2 * (#[trigger] rooms@[j]).door_radius < rooms@[
                    j
                ].wall_height,
            geometry@.len() == i,
            forall|j: int|
                0 <= j < i ==> room_geometry_ok(
                    #[trigger] geometry@[j],
                    rooms@[j].wall_height as int,
                    rooms@[j].door_radius as int,
                    rooms@[j].offset,
                    rooms@[j].extension as int,
                    rooms@[j].empty_side,
                    rooms@[j].door_side,
                ),
        decreases rooms@.len() - i,
    {
        let room = &rooms[i];
        match make_room(
            room.wall_height,
            room.door_radius,
            room.offset,
            room.extension,
            room.empty_side,
            room.door_side,
        ) {
            Ok(g) => {
                geometry.push(g);
            },
            Err(e) => {
                return Err(e);
            },
        }
        i = i + 1;
    }

    Ok(MapData { rooms, bounds, geometry })
}

/// Builds the whole authored level: the room list, its bounds index, and
/// all geometry descriptors.
pub fn setup_map() -> (r: Result<MapData, ConfigError>)
    ensures
        r is Ok,
        r matches Ok(m) ==> {
            &&& m.rooms@.len() == 13
            &&& forall|i: int, j: int|
                0 <= i < j < m.rooms@.len() ==> (#[trigger] m.bounds.bounds@[i]).name@ != (
                #[trigger] m.bounds.bounds@[j]).name@
            &&& m.bounds.bounds@.len() == m.rooms@.len()
            &&& forall|i: int|
                0 <= i < m.rooms@.len() ==> bounds_match_room(
                    #[trigger] m.bounds.bounds@[i],
                    m.rooms@[i],
                )
            &&& m.geometry@.len() == m.rooms@.len()
            &&& forall|i: int|
                0 <= i < m.rooms@.len() ==> room_geometry_ok(
                    #[trigger] m.geometry@[i],
                    m.rooms@[i].wall_height as int,
                    m.rooms@[i].door_radius as int,
                    m.rooms@[i].offset,
                    m.rooms@[i].extension as int,
                    m.rooms@[i].empty_side,
                    m.rooms@[i].door_side,
                )
        },
{
    let rooms = level_rooms();
    assemble_map(rooms)
}

} // verus!
