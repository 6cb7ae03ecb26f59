//! Shared map dimensions, in tenths of a world unit.

use vstd::prelude::*;

verus! {

/// Thickness of every wall slab.
pub const WALL_THICKNESS: i64 = 10;

/// Half-extent every room starts from before its own extension is applied.
pub const BASE_ROOM_SIZE: i64 = 300;

/// Half-thickness of a floor slab.
pub const GROUND_HEIGHT: i64 = 1;

/// Full thickness of a roof slab.
pub const ROOF_THICKNESS: i64 = 2;

} // verus!
