//! The room-bounds index: one axis-aligned box per room, in level order,
//! and the per-step locator that resolves a position to the first
//! containing room.

use vstd::prelude::*;

use crate::geometry::Point3;
use crate::room::{BOUNDS_FLOOR_MARGIN, Room};

verus! {

/// One room's derived axis-aligned box, labelled with the room's name.
#[derive(Clone, Debug)]
pub struct RoomBounds {
    pub name: String,
    pub min: Point3,
    pub max: Point3,
}

/// The ordered, read-only collection of every room's bounds for one
/// level; queried linearly, first match wins.
#[derive(Clone, Debug)]
pub struct RoomBoundsData {
    pub bounds: Vec<RoomBounds>,
}

/// `b` is exactly the box `Room::get_bounds` derives for `room`, under
/// the room's name.
pub open spec fn bounds_match_room(b: RoomBounds, room: Room) -> bool {
    &&& b.name@ == room.name@
    &&& b.min.x == room.offset.x - room.ground_size() / 2
    &&& b.min.y == room.offset.y - BOUNDS_FLOOR_MARGIN
    &&& b.min.z == room.offset.z - room.ground_size() / 2
    &&& b.max.x == room.offset.x + room.ground_size() / 2
    &&& b.max.y == room.offset.y + room.wall_height
    &&& b.max.z == room.offset.z + room.ground_size() / 2
}

/// Point containment, inclusive on all six faces.
pub open spec fn bounds_contain(b: RoomBounds, p: Point3) -> bool {
    &&& b.min.x <= p.x <= b.max.x
    &&& b.min.y <= p.y <= b.max.y
    &&& b.min.z <= p.z <= b.max.z
}

impl RoomBounds {
    /// Whether `p` lies in this box, inclusive on all six faces.
    pub fn contains(&self, p: Point3) -> (r: bool)
        ensures
            r == bounds_contain(*self, p),
    {
        p.x >= self.min.x && p.x <= self.max.x && p.y >= self.min.y && p.y <= self.max.y && p.z
            >= self.min.z && p.z <= self.max.z
    }
}

/// Derives one `RoomBounds` per room, preserving the input order
/// one-to-one.
pub fn extract_room_bounds(rooms: &Vec<Room>) -> (r: RoomBoundsData)
    requires
        forall|i: int| 0 <= i < rooms@.len() ==> (#[trigger] rooms@[i]).wf(),
    ensures
        r.bounds@.len() == rooms@.len(),
        forall|i: int|
            0 <= i < rooms@.len() ==> bounds_match_room(#[trigger] r.bounds@[i], rooms@[i]),
{
    let mut bounds_vec: Vec<RoomBounds> = Vec::new();
    let mut i: usize = 0;
    while i < rooms.len()
        invariant
            0 <= i <= rooms@.len(),
            forall|j: int| 0 <= j < rooms@.len() ==> (#[trigger] rooms@[j]).wf(),
            bounds_vec@.len() == i,
            forall|j: int|
                0 <= j < i ==> bounds_match_room(#[trigger] bounds_vec@[j], rooms@[j]),
        decreases rooms@.len() - i,
    {
        let room = &rooms[i];
        let (min, max) = room.get_bounds();
        bounds_vec.push(RoomBounds { name: room.name.clone(), min, max });
        i = i + 1;
    }
    RoomBoundsData { bounds: bounds_vec }
}

/// The name of the first bounds box in `s` that contains `p`, if any:
/// the locator's reference meaning.
pub open spec fn spec_locate(s: Seq<RoomBounds>, p: Point3) -> Option<Seq<char>>
    decreases s.len(),
{
    if s.len() == 0 {
        None
    } else if bounds_contain(s[0], p) {
        Some(s[0].name@)
    } else {
        spec_locate(s.subrange(1, s.len() as int), p)
    }
}

/// A point inside no box resolves to no room.
pub proof fn lemma_locate_miss(s: Seq<RoomBounds>, p: Point3)
    requires
        forall|j: int| 0 <= j < s.len() ==> !bounds_contain(#[trigger] s[j], p),
    ensures
        spec_locate(s, p) is None,
    decreases s.len(),
{
    if s.len() > 0 {
        lemma_locate_miss(s.subrange(1, s.len() as int), p);
    }
}

/// The first box in index order that contains the point decides the
/// result, whatever boxes after it also contain it.
pub proof fn lemma_locate_first_match(s: Seq<RoomBounds>, p: Point3, i: int)
    requires
        0 <= i < s.len(),
        bounds_contain(s[i], p),
        forall|j: int| 0 <= j < i ==> !bounds_contain(#[trigger] s[j], p),
    ensures
        spec_locate(s, p) == Some(s[i].name@),
    decreases i,
{
    if i > 0 {
        lemma_locate_first_match(s.subrange(1, s.len() as int), p, i - 1);
    }
}

/// A point inside exactly one room's box resolves to that room's name.
pub proof fn lemma_locate_unique(s: Seq<RoomBounds>, p: Point3, i: int)
    requires
        0 <= i < s.len(),
        bounds_contain(s[i], p),
        forall|j: int| 0 <= j < s.len() && j != i ==> !bounds_contain(#[trigger] s[j], p),
    ensures
        spec_locate(s, p) == Some(s[i].name@),
{
    lemma_locate_first_match(s, p, i);
}

/// Scans the index in order and returns the name of the first room whose
/// box contains `point`, or nothing when no box does.
pub fn locate(point: Point3, index: &RoomBoundsData) -> (r: Option<String>)
    ensures
        match r {
            Some(name) => spec_locate(index.bounds@, point) == Some(name@),
            None => spec_locate(index.bounds@, point) is None,
        },
{
    let mut i: usize = 0;
    while i < index.bounds.len()
        invariant
            0 <= i <= index.bounds@.len(),
            forall|j: int| 0 <= j < i ==> !bounds_contain(#[trigger] index.bounds@[j], point),
        decreases index.bounds@.len() - i,
    {
        let b = &index.bounds[i];
        if b.contains(point) {
            proof {
                lemma_locate_first_match(index.bounds@, point, i as int);
            }
            return Some(b.name.clone());
        }
        i = i + 1;
    }
    proof {
        lemma_locate_miss(index.bounds@, point);
    }
    None
}

} // verus!
