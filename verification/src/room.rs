//! Room specifications: wall slots, per-wall policy sets, and the derived
//! axis-aligned room bounds.

use vstd::prelude::*;

use crate::constants::BASE_ROOM_SIZE;
use crate::geometry::{COORD_LIMIT, Point3, half_of};

verus! {

/// Vertical margin added below a room's floor when its bounding box is
/// derived, so the player's feet stay inside the box despite floor
/// thickness and small surface penetration.
pub const BOUNDS_FLOOR_MARGIN: i64 = 50;

/// The four cardinal wall slots of a room.
#[allow(non_camel_case_types)]
#[derive(Clone, Copy, PartialEq, Eq, Structural, Debug, Hash)]
pub enum WallType {
    NORTH,
    SOUTH,
    WEST,
    EAST,
}

/// The axis a wall's long dimension runs along.
#[derive(Clone, Copy, PartialEq, Eq, Structural, Debug)]
pub enum WallOrientation {
    AlongX,
    AlongZ,
}

impl WallType {
    /// The four wall slots in the canonical build order.
    pub fn all() -> (r: Vec<WallType>)
        ensures
            r@ == seq![WallType::NORTH, WallType::SOUTH, WallType::WEST, WallType::EAST],
    {
        let mut v: Vec<WallType> = Vec::new();
        v.push(WallType::NORTH);
        v.push(WallType::SOUTH);
        v.push(WallType::WEST);
        v.push(WallType::EAST);
        v
    }

    /// North and south walls run along the x axis, west and east walls
    /// along the z axis.
    pub open spec fn spec_orientation(self) -> WallOrientation {
        match self {
            WallType::NORTH => WallOrientation::AlongX,
            WallType::SOUTH => WallOrientation::AlongX,
            WallType::WEST => WallOrientation::AlongZ,
            WallType::EAST => WallOrientation::AlongZ,
        }
    }

    pub fn orientation(self) -> (r: WallOrientation)
        ensures
            r == self.spec_orientation(),
    {
        match self {
            WallType::NORTH | WallType::SOUTH => WallOrientation::AlongX,
            WallType::WEST | WallType::EAST => WallOrientation::AlongZ,
        }
    }

    /// Which way the wall's face lies from the room center, along the
    /// wall's normal axis: +1 for north (+z) and east (+x), -1 for south
    /// (-z) and west (-x).
    pub open spec fn spec_normal_sign(self) -> int {
        match self {
            WallType::NORTH => 1,
            WallType::SOUTH => -1,
            WallType::WEST => -1,
            WallType::EAST => 1,
        }
    }

    pub fn normal_sign(self) -> (r: i64)
        ensures
            r == self.spec_normal_sign(),
    {
        match self {
            WallType::NORTH | WallType::EAST => 1,
            WallType::SOUTH | WallType::WEST => -1,
        }
    }
}

/// A set of wall slots, used for a room's per-wall policy.
#[derive(Clone, Copy, PartialEq, Eq, Structural, Debug, Default)]
pub struct WallSet {
    pub north: bool,
    pub south: bool,
    pub west: bool,
    pub east: bool,
}

impl WallSet {
    pub open spec fn has(self, w: WallType) -> bool {
        match w {
            WallType::NORTH => self.north,
            WallType::SOUTH => self.south,
            WallType::WEST => self.west,
            WallType::EAST => self.east,
        }
    }

    /// How many wall slots the set holds.
    pub open spec fn count(self) -> int {
        (if self.north { 1int } else { 0int }) + (if self.south { 1int } else { 0int })
            + (if self.west { 1int } else { 0int }) + (if self.east { 1int } else { 0int })
    }

    pub fn none() -> (r: WallSet)
        ensures
            r@ == Set::<WallType>::empty(),
            forall|u: WallType| !r.has(u),
            r.count() == 0,
    {
        let r = WallSet { north: false, south: false, west: false, east: false };
        proof {
            assert(r@ =~= Set::<WallType>::empty());
        }
        r
    }

    /// The set extended by one wall slot.
    pub fn with(self, w: WallType) -> (r: WallSet)
        ensures
            r@ == self@.insert(w),
            forall|u: WallType| r.has(u) == (u == w || self.has(u)),
    {
        let r = match w {
            WallType::NORTH => WallSet { north: true, ..self },
            WallType::SOUTH => WallSet { south: true, ..self },
            WallType::WEST => WallSet { west: true, ..self },
            WallType::EAST => WallSet { east: true, ..self },
        };
        proof {
            assert(r@ =~= self@.insert(w));
        }
        r
    }

    pub fn contains(&self, w: WallType) -> (r: bool)
        ensures
            r == self@.contains(w),
    {
        match w {
            WallType::NORTH => self.north,
            WallType::SOUTH => self.south,
            WallType::WEST => self.west,
            WallType::EAST => self.east,
        }
    }
}

impl View for WallSet {
    type V = Set<WallType>;

    open spec fn view(&self) -> Set<WallType> {
        let s = Set::<WallType>::empty();
        let s = if self.north {
            s.insert(WallType::NORTH)
        } else {
            s
        };
        let s = if self.south {
            s.insert(WallType::SOUTH)
        } else {
            s
        };
        let s = if self.west {
            s.insert(WallType::WEST)
        } else {
            s
        };
        if self.east {
            s.insert(WallType::EAST)
        } else {
            s
        }
    }
}

/// The abstract set a `WallSet` stands for holds exactly the slots the
/// flags mark, and `count` is its cardinality.
pub proof fn lemma_wall_set_view(s: WallSet)
    ensures
        forall|w: WallType| s@.contains(w) == s.has(w),
        s@.finite(),
        s@.len() == s.count(),
{
    assert(forall|w: WallType| s@.contains(w) == s.has(w)) by {
        assert forall|w: WallType| s@.contains(w) == s.has(w) by {
            match w {
                WallType::NORTH => {},
                WallType::SOUTH => {},
                WallType::WEST => {},
                WallType::EAST => {},
            }
        }
    }
}

/// A configuration error found while a room is built: the level loader
/// refuses the room instead of emitting degenerate geometry.
#[derive(Clone, Copy, PartialEq, Eq, Structural, Debug)]
pub enum ConfigError {
    /// The door radius is at least half the wall height, so the lintel
    /// above the opening would have non-positive height.
    DoorTooLarge,
    /// The room's extension shrinks the shared base size to a non-positive
    /// half-extent.
    NonPositiveGroundSize,
}

/// Declarative description of one room: size extension, wall height, door
/// radius, per-wall policy, and world-space placement.  Immutable once
/// authored; the whole level is an ordered list of these.
#[derive(Clone, Debug)]
pub struct Room {
    /// Identifier shown by the HUD; unique within a level.
    pub name: String,
    pub wall_height: i64,
    /// Half-height of any door opening.
    pub door_radius: i64,
    /// Added to `BASE_ROOM_SIZE` to get the room's half-extent; may be
    /// negative, but the sum must stay positive.
    pub extension: i64,
    /// Wall slots omitted entirely (open to an adjoining room or void).
    pub empty_side: WallSet,
    /// Wall slots built with a rectangular door opening instead of solid.
    pub door_side: WallSet,
    /// World-space translation of the room center at floor level.
    pub offset: Point3,
}

impl Room {
    /// The room's half-extent on the ground plane.
    pub open spec fn ground_size(self) -> int {
        BASE_ROOM_SIZE + self.extension
    }

    /// Magnitude limits that keep all derived geometry within `i64`,
    /// together with the data-model invariants: positive wall height and
    /// door radius, positive ground half-extent.
    pub open spec fn wf(self) -> bool {
        &&& self.offset.in_range()
        &&& 0 < self.wall_height <= COORD_LIMIT
        &&& 0 < self.door_radius <= COORD_LIMIT
        &&& -COORD_LIMIT <= self.extension <= COORD_LIMIT
        &&& 0 < self.ground_size() <= COORD_LIMIT
    }

    /// The axis-aligned box used for point-in-room lookup: half the ground
    /// extent on each side horizontally, a fixed margin below the floor,
    /// and the wall height above.
    pub fn get_bounds(&self) -> (r: (Point3, Point3))
        requires
            self.wf(),
        ensures
            r.0.x == self.offset.x - self.ground_size() / 2,
            r.0.y == self.offset.y - BOUNDS_FLOOR_MARGIN,
            r.0.z == self.offset.z - self.ground_size() / 2,
            r.1.x == self.offset.x + self.ground_size() / 2,
            r.1.y == self.offset.y + self.wall_height,
            r.1.z == self.offset.z + self.ground_size() / 2,
    {
        let map_size: i64 = BASE_ROOM_SIZE + self.extension;
        let half: i64 = half_of(map_size);

        let min = Point3::new(
            self.offset.x - half,
            self.offset.y - BOUNDS_FLOOR_MARGIN,
            self.offset.z - half,
        );
        let max = Point3::new(
            self.offset.x + half,
            self.offset.y + self.wall_height,
            self.offset.z + half,
        );

        (min, max)
    }
}

} // verus!
