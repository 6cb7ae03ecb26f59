//! Room builder: expands one room specification into the full set of
//! geometry descriptors — floor, the four wall slots, roof, and lights.

use vstd::prelude::*;

use crate::constants::{BASE_ROOM_SIZE, GROUND_HEIGHT, ROOF_THICKNESS, WALL_THICKNESS};
use crate::geometry::{BoxGeom, COORD_LIMIT, Point3, half_of};
use crate::room::{ConfigError, WallSet, WallType};
use crate::walls::{WallGroup, build_wall_slot, wall_group_ok};

verus! {

/// Horizontal stand-off of the key light from the room center.
pub const KEY_LIGHT_OFFSET: i64 = 100;

/// Height of the key light above the room center.
pub const KEY_LIGHT_HEIGHT: i64 = 200;

/// A directional light descriptor: placed at `position`, aimed at
/// `target`.
#[derive(Clone, Copy, PartialEq, Eq, Structural, Debug)]
pub struct DirectionalLightDesc {
    pub position: Point3,
    pub target: Point3,
}

/// An omnidirectional light descriptor with a falloff range.
#[derive(Clone, Copy, PartialEq, Eq, Structural, Debug)]
pub struct PointLightDesc {
    pub position: Point3,
    pub range: i64,
}

/// Every descriptor one room expands to.
#[derive(Clone, Debug)]
pub struct RoomGeometry {
    pub floor: BoxGeom,
    /// One group per wall slot that is not an empty side, in the canonical
    /// slot order north, south, west, east.
    pub walls: Vec<WallGroup>,
    pub roof: BoxGeom,
    /// Directional light aimed at the room center.
    pub key_light: DirectionalLightDesc,
    /// Point light hung in the upper part of the room.
    pub fill_light: PointLightDesc,
}

/// The wall slots a room actually builds: the canonical order north,
/// south, west, east with the empty sides left out.
pub open spec fn expected_wall_slots(empty: WallSet) -> Seq<WallType> {
    (if !empty.has(WallType::NORTH) {
        seq![WallType::NORTH]
    } else {
        Seq::empty()
    }) + (if !empty.has(WallType::SOUTH) {
        seq![WallType::SOUTH]
    } else {
        Seq::empty()
    }) + (if !empty.has(WallType::WEST) {
        seq![WallType::WEST]
    } else {
        Seq::empty()
    }) + (if !empty.has(WallType::EAST) {
        seq![WallType::EAST]
    } else {
        Seq::empty()
    })
}

/// Every wall slot is either omitted or expanded exactly once, in order.
pub proof fn lemma_expected_wall_slots_len(empty: WallSet)
    ensures
        expected_wall_slots(empty).len() == 4 - empty.count(),
{
}

/// Wall-slot completeness: a room's wall groups number exactly four minus
/// the number of empty sides, and each group holds one solid slab for a
/// plain wall or three pieces for a door wall.
pub proof fn lemma_wall_slot_completeness(
    ws: Seq<WallGroup>,
    empty: WallSet,
    door: WallSet,
    gs: int,
    wh: int,
    dr: int,
    ox: int,
    oy: int,
    oz: int,
)
    requires
        room_walls_ok(ws, empty, door, gs, wh, dr, ox, oy, oz),
    ensures
        ws.len() == 4 - empty@.len(),
        forall|i: int|
            0 <= i < ws.len() ==> (#[trigger] ws[i]).pieces@.len() == (if door.has(ws[i].wall) {
                3int
            } else {
                1int
            }),
{
    crate::room::lemma_wall_set_view(empty);
    lemma_expected_wall_slots_len(empty);
    assert forall|i: int| 0 <= i < ws.len() implies (#[trigger] ws[i]).pieces@.len() == (
    if door.has(ws[i].wall) {
        3int
    } else {
        1int
    }) by {
        assert(wall_group_ok(
            ws[i],
            expected_wall_slots(empty)[i],
            gs,
            WALL_THICKNESS as int,
            wh,
            dr,
            ox,
            oy,
            oz,
            door.has(expected_wall_slots(empty)[i]),
        ));
    }
}

/// Whether any wall slot carries a door: a slot marked as a door side and
/// not overridden by being an empty side.
pub open spec fn any_door_wall(empty: WallSet, door: WallSet) -> bool {
    ||| (!empty.has(WallType::NORTH) && door.has(WallType::NORTH))
    ||| (!empty.has(WallType::SOUTH) && door.has(WallType::SOUTH))
    ||| (!empty.has(WallType::WEST) && door.has(WallType::WEST))
    ||| (!empty.has(WallType::EAST) && door.has(WallType::EAST))
}

/// The wall groups of a whole room: one group per expected slot, each
/// matching its slot's policy.
pub open spec fn room_walls_ok(
    ws: Seq<WallGroup>,
    empty: WallSet,
    door: WallSet,
    gs: int,
    wh: int,
    dr: int,
    ox: int,
    oy: int,
    oz: int,
) -> bool {
    let expected = expected_wall_slots(empty);
    &&& ws.len() == expected.len()
    &&& forall|i: int|
        0 <= i < ws.len() ==> wall_group_ok(
            #[trigger] ws[i],
            expected[i],
            gs,
            WALL_THICKNESS as int,
            wh,
            dr,
            ox,
            oy,
            oz,
            door.has(expected[i]),
        )
}

/// The roof slab of a room with half-extent `gs`: spans the whole room,
/// seated on top of the walls.
pub open spec fn roof_ok(b: BoxGeom, gs: int, wh: int, ox: int, oy: int, oz: int) -> bool {
    &&& b.center.x == ox
    &&& b.center.y == oy + wh + ROOF_THICKNESS / 2
    &&& b.center.z == oz
    &&& b.half.x == gs
    &&& b.half.y == ROOF_THICKNESS / 2
    &&& b.half.z == gs
}

/// The floor slab of a room with half-extent `gs`: spans the whole room,
/// its top face at the room's floor level.
pub open spec fn floor_ok(b: BoxGeom, gs: int, ox: int, oy: int, oz: int) -> bool {
    &&& b.center.x == ox
    &&& b.center.y == oy - GROUND_HEIGHT
    &&& b.center.z == oz
    &&& b.half.x == gs
    &&& b.half.y == GROUND_HEIGHT
    &&& b.half.z == gs
}

/// The complete set of descriptors one room expands to: floor, the wall
/// groups of every non-empty slot in canonical order, roof, and the two
/// lights.
pub open spec fn room_geometry_ok(
    g: RoomGeometry,
    wh: int,
    dr: int,
    offset: Point3,
    ext: int,
    empty: WallSet,
    door: WallSet,
) -> bool {
    let gs = BASE_ROOM_SIZE + ext;
    let ox = offset.x as int;
    let oy = offset.y as int;
    let oz = offset.z as int;
    &&& floor_ok(g.floor, gs, ox, oy, oz)
    &&& room_walls_ok(g.walls@, empty, door, gs, wh, dr, ox, oy, oz)
    &&& roof_ok(g.roof, gs, wh, ox, oy, oz)
    &&& g.key_light.position.x == ox + KEY_LIGHT_OFFSET
    &&& g.key_light.position.y == oy + KEY_LIGHT_HEIGHT
    &&& g.key_light.position.z == oz + KEY_LIGHT_OFFSET
    &&& g.key_light.target == offset
    &&& g.fill_light.position.x == ox
    &&& g.fill_light.position.y == oy + 7 * wh / 10
    &&& g.fill_light.position.z == oz
    &&& g.fill_light.range == 2 * gs
}

/// Builds the roof slab for a room.
pub fn make_roof(wall_height: i64, offset: Point3, extension: i64) -> (r: BoxGeom)
    requires
        offset.in_range(),
        0 < wall_height <= COORD_LIMIT,
        -COORD_LIMIT <= extension <= COORD_LIMIT,
        0 < BASE_ROOM_SIZE + extension,
    ensures
        roof_ok(
            r,
            BASE_ROOM_SIZE + extension,
            wall_height as int,
            offset.x as int,
            offset.y as int,
            offset.z as int,
        ),
{
    let ground_size: i64 = BASE_ROOM_SIZE + extension;
    let half_roof: i64 = half_of(ROOF_THICKNESS);
    BoxGeom {
        center: Point3::new(offset.x, offset.y + wall_height + half_roof, offset.z),
        half: Point3::new(ground_size, half_roof, ground_size),
    }
}

/// Expands one room specification into all of its geometry descriptors.
///
/// Refuses a room whose extension shrinks the shared base size away, and
/// one whose door opening cannot fit under its walls; otherwise emits the
/// floor, one group per non-empty wall slot in canonical order, the roof,
/// and the two lights.
pub fn make_room(
    wall_height: i64,
    door_radius: i64,
    offset: Point3,
    extension: i64,
    empty_side: WallSet,
    door_side: WallSet,
) -> (r: Result<RoomGeometry, ConfigError>)
    requires
        offset.in_range(),
        0 < wall_height <= COORD_LIMIT,
        0 < door_radius <= COORD_LIMIT,
        -COORD_LIMIT <= extension <= COORD_LIMIT,
    ensures
        ({
            let gs = BASE_ROOM_SIZE + extension;
            &&& (r is Err <==> gs <= 0 || (any_door_wall(empty_side, door_side) && 2 * door_radius
                >= wall_height))
            &&& (gs <= 0 ==> (r matches Err(e) && e == ConfigError::NonPositiveGroundSize))
            &&& (gs > 0 && r is Err ==> (r matches Err(e) && e == ConfigError::DoorTooLarge))
            &&& (r matches Ok(g) ==> room_geometry_ok(
                g,
                wall_height as int,
                door_radius as int,
                offset,
                extension as int,
                empty_side,
                door_side,
            ))
        }),
{
    let ground_size: i64 = BASE_ROOM_SIZE + extension;
    if ground_size <= 0 {
        return Err(ConfigError::NonPositiveGroundSize);
    }

    let floor = BoxGeom {
        center: Point3::new(offset.x, offset.y - GROUND_HEIGHT, offset.z),
        half: Point3::new(ground_size, GROUND_HEIGHT, ground_size),
    };

    let mut walls: Vec<WallGroup> = Vec::new();
    let slots = WallType::all();
    let mut k: usize = 0;
    while k < slots.len()
        invariant
            slots@ == seq![WallType::NORTH, WallType::SOUTH, WallType::WEST, WallType::EAST],
            0 <= k <= 4,
            offset.in_range(),
            0 < wall_height <= COORD_LIMIT,
            0 < door_radius <= COORD_LIMIT,
            0 < ground_size <= COORD_LIMIT + BASE_ROOM_SIZE,
            ground_size == BASE_ROOM_SIZE + extension,
            walls@.len() == expected_wall_slots_upto(empty_side, k as int).len(),
            forall|i: int|
                0 <= i < walls@.len() ==> wall_group_ok(
                    #[trigger] walls@[i],
                    expected_wall_slots_upto(empty_side, k as int)[i],
                    ground_size as int,
                    WALL_THICKNESS as int,
                    wall_height as int,
                    door_radius as int,
                    offset.x as int,
                    offset.y as int,
                    offset.z as int,
                    door_side.has(expected_wall_slots_upto(empty_side, k as int)[i]),
                ),
            forall|j: int|
                0 <= j < k ==> !(!empty_side.has(canonical_slot(j)) && door_side.has(
                    canonical_slot(j),
                ) && 2 * door_radius >= wall_height),
        decreases slots.len() - k,
    {
        let wall = slots[k];
        match build_wall_slot(
            wall,
            ground_size,
            WALL_THICKNESS,
            wall_height,
            door_radius,
            offset,
            &empty_side,
            &door_side,
        ) {
            Ok(Some(group)) => {
                walls.push(group);
            },
            Ok(None) => {},
            Err(e) => {
                return Err(e);
            },
        }
        proof {
            assert(expected_wall_slots_upto(empty_side, k + 1) =~= expected_wall_slots_upto(
                empty_side,
                k as int,
            ) + (if !empty_side.has(canonical_slot(k as int)) {
                seq![canonical_slot(k as int)]
            } else {
                Seq::empty()
            }));
        }
        k = k + 1;
    }
    proof {
        reveal_with_fuel(expected_wall_slots_upto, 5);
        assert(expected_wall_slots_upto(empty_side, 4) =~= expected_wall_slots(empty_side));
    }

    let roof = make_roof(wall_height, offset, extension);

    let key_light = DirectionalLightDesc {
        position: Point3::new(
            offset.x + KEY_LIGHT_OFFSET,
            offset.y + KEY_LIGHT_HEIGHT,
            offset.z + KEY_LIGHT_OFFSET,
        ),
        target: offset,
    };
    let lamp_height: i64 = 7 * wall_height / 10;
    let fill_light = PointLightDesc {
        position: Point3::new(offset.x, offset.y + lamp_height, offset.z),
        range: 2 * ground_size,
    };

    Ok(RoomGeometry { floor, walls, roof, key_light, fill_light })
}

/// The wall slots in canonical order, for stating partial progress over
/// the four slots.
spec fn canonical_slot(i: int) -> WallType {
    if i == 0 {
        WallType::NORTH
    } else if i == 1 {
        WallType::SOUTH
    } else if i == 2 {
        WallType::WEST
    } else {
        WallType::EAST
    }
}

/// The expected wall slots among the first `k` canonical slots.
spec fn expected_wall_slots_upto(empty: WallSet, k: int) -> Seq<WallType>
    decreases k,
{
    if k <= 0 {
        Seq::empty()
    } else {
        expected_wall_slots_upto(empty, k - 1) + (if !empty.has(canonical_slot(k - 1)) {
            seq![canonical_slot(k - 1)]
        } else {
            Seq::empty()
        })
    }
}

} // verus!
