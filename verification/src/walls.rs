//! Wall synthesis: expands one wall slot of a room into zero or more box
//! descriptors.
//!
//! A slot is either omitted (an empty side), built as one solid slab, or
//! built as a three-piece opening: a lintel spanning the wall above the
//! door, flanked by two full-height jambs.

use vstd::prelude::*;

use crate::geometry::{BoxGeom, COORD_LIMIT, Point3, half_of};
use crate::room::{ConfigError, WallOrientation, WallSet, WallType};
use vstd::arithmetic::div_mod::lemma_hoist_over_denominator;

verus! {

/// What a wall piece is, so the consumer can pick materials per role.
#[derive(Clone, Copy, PartialEq, Eq, Structural, Debug)]
pub enum WallPieceKind {
    /// A full solid slab.
    Solid,
    /// The strip above a door opening, spanning the whole wall.
    Lintel,
    /// One of the two full-height strips flanking a door opening.
    Jamb,
}

/// One rectangular-prism descriptor of a wall, ready for the
/// geometry/physics sink.
#[derive(Clone, Copy, PartialEq, Eq, Structural, Debug)]
pub struct WallPiece {
    pub kind: WallPieceKind,
    pub orientation: WallOrientation,
    pub geom: BoxGeom,
}

/// All pieces of one wall slot, tagged with the slot they fill.
#[derive(Clone, Debug)]
pub struct WallGroup {
    pub wall: WallType,
    pub pieces: Vec<WallPiece>,
}

/// A solid slab filling the slot `wall` of a room centered at
/// `(ox, oy, oz)` with ground half-extent `gs`: full wall length, full
/// height, seated at the room's face along the wall's normal axis.
pub open spec fn is_solid_wall_piece(
    p: WallPiece,
    gs: int,
    t: int,
    wh: int,
    wall: WallType,
    ox: int,
    oy: int,
    oz: int,
) -> bool {
    let sg = wall.spec_normal_sign();
    &&& p.kind == WallPieceKind::Solid
    &&& p.orientation == wall.spec_orientation()
    &&& p.geom.center.y == oy + wh / 2
    &&& p.geom.half.y == wh / 2
    &&& match wall.spec_orientation() {
        WallOrientation::AlongX => {
            &&& p.geom.center.x == ox
            &&& p.geom.center.z == oz + sg * gs
            &&& p.geom.half.x == gs
            &&& p.geom.half.z == t / 2
        },
        WallOrientation::AlongZ => {
            &&& p.geom.center.x == ox + sg * gs
            &&& p.geom.center.z == oz
            &&& p.geom.half.x == t / 2
            &&& p.geom.half.z == gs
        },
    }
}

/// The lintel of a door wall whose face center is `(fx, fy, fz)`: spans
/// the full half-extent `es`, with height `wh - 2 * dr`, seated directly
/// above the opening.
pub open spec fn is_door_lintel(
    p: WallPiece,
    es: int,
    t: int,
    wh: int,
    dr: int,
    fx: int,
    fy: int,
    fz: int,
    or: WallOrientation,
) -> bool {
    let top_h = wh - 2 * dr;
    let top_y = 2 * dr + top_h / 2;
    &&& p.kind == WallPieceKind::Lintel
    &&& p.orientation == or
    &&& p.geom.center.y == fy + top_y
    &&& p.geom.half.y == top_h / 2
    &&& match or {
        WallOrientation::AlongX => {
            &&& p.geom.center.x == fx
            &&& p.geom.center.z == fz
            &&& p.geom.half.x == es
            &&& p.geom.half.z == t / 2
        },
        WallOrientation::AlongZ => {
            &&& p.geom.center.x == fx
            &&& p.geom.center.z == fz
            &&& p.geom.half.x == t / 2
            &&& p.geom.half.z == es
        },
    }
}

/// One jamb of a door wall: full height, width `es - dr`, centered
/// `(es + dr) / 2` to the side given by `side` (-1 or +1) of the face
/// center `(fx, fy, fz)`.
pub open spec fn is_door_jamb(
    p: WallPiece,
    side: int,
    es: int,
    t: int,
    wh: int,
    dr: int,
    fx: int,
    fy: int,
    fz: int,
    or: WallOrientation,
) -> bool {
    let jamb_center = side * ((es + dr) / 2);
    &&& p.kind == WallPieceKind::Jamb
    &&& p.orientation == or
    &&& p.geom.center.y == fy + wh / 2
    &&& p.geom.half.y == wh / 2
    &&& match or {
        WallOrientation::AlongX => {
            &&& p.geom.center.x == fx + jamb_center
            &&& p.geom.center.z == fz
            &&& p.geom.half.x == (es - dr) / 2
            &&& p.geom.half.z == t / 2
        },
        WallOrientation::AlongZ => {
            &&& p.geom.center.x == fx
            &&& p.geom.center.z == fz + jamb_center
            &&& p.geom.half.x == t / 2
            &&& p.geom.half.z == (es - dr) / 2
        },
    }
}

/// The three pieces of a door wall, in emission order: lintel, then the
/// jamb on the negative side, then the jamb on the positive side.
pub open spec fn door_wall_pieces_ok(
    ps: Seq<WallPiece>,
    es: int,
    t: int,
    wh: int,
    dr: int,
    fx: int,
    fy: int,
    fz: int,
    or: WallOrientation,
) -> bool {
    &&& ps.len() == 3
    &&& is_door_lintel(ps[0], es, t, wh, dr, fx, fy, fz, or)
    &&& is_door_jamb(ps[1], -1, es, t, wh, dr, fx, fy, fz, or)
    &&& is_door_jamb(ps[2], 1, es, t, wh, dr, fx, fy, fz, or)
}

/// One wall slot expanded for a room centered at `(ox, oy, oz)`: a single
/// solid slab, or — when `door` holds — the three-piece opening at the
/// room's face.
pub open spec fn wall_group_ok(
    g: WallGroup,
    wall: WallType,
    gs: int,
    t: int,
    wh: int,
    dr: int,
    ox: int,
    oy: int,
    oz: int,
    door: bool,
) -> bool {
    let sg = wall.spec_normal_sign();
    &&& g.wall == wall
    &&& if door {
        match wall.spec_orientation() {
            WallOrientation::AlongX => door_wall_pieces_ok(
                g.pieces@,
                gs,
                t,
                wh,
                dr,
                ox,
                oy,
                oz + sg * gs,
                WallOrientation::AlongX,
            ),
            WallOrientation::AlongZ => door_wall_pieces_ok(
                g.pieces@,
                gs,
                t,
                wh,
                dr,
                ox + sg * gs,
                oy,
                oz,
                WallOrientation::AlongZ,
            ),
        }
    } else {
        &&& g.pieces@.len() == 1
        &&& is_solid_wall_piece(g.pieces@[0], gs, t, wh, wall, ox, oy, oz)
    }
}

/// Builds the solid slab for any wall slot from the slot's axis/sign
/// table, so the four cardinal cases share one routine.
pub fn make_solid_wall(
    wall: WallType,
    ground_size: i64,
    offset: Point3,
    wall_height: i64,
    wall_thickness: i64,
) -> (r: WallPiece)
    requires
        offset.in_range(),
        0 < ground_size <= 2 * COORD_LIMIT,
        0 < wall_height <= COORD_LIMIT,
        0 < wall_thickness <= COORD_LIMIT,
    ensures
        is_solid_wall_piece(
            r,
            ground_size as int,
            wall_thickness as int,
            wall_height as int,
            wall,
            offset.x as int,
            offset.y as int,
            offset.z as int,
        ),
{
    let sign: i64 = wall.normal_sign();
    let half_h: i64 = half_of(wall_height);
    let half_t: i64 = half_of(wall_thickness);
    let center_y: i64 = offset.y + half_h;
    let (center, half) = match wall.orientation() {
        WallOrientation::AlongX => (
            Point3::new(offset.x, center_y, offset.z + sign * ground_size),
            Point3::new(ground_size, half_h, half_t),
        ),
        WallOrientation::AlongZ => (
            Point3::new(offset.x + sign * ground_size, center_y, offset.z),
            Point3::new(half_t, half_h, ground_size),
        ),
    };
    WallPiece {
        kind: WallPieceKind::Solid,
        orientation: wall.orientation(),
        geom: BoxGeom { center, half },
    }
}

/// Solid slab for the north slot (face at `+z`).
pub fn make_north_wall(
    ground_size: i64,
    offset: Point3,
    wall_height: i64,
    wall_thickness: i64,
) -> (r: WallPiece)
    requires
        offset.in_range(),
        0 < ground_size <= 2 * COORD_LIMIT,
        0 < wall_height <= COORD_LIMIT,
        0 < wall_thickness <= COORD_LIMIT,
    ensures
        is_solid_wall_piece(
            r,
            ground_size as int,
            wall_thickness as int,
            wall_height as int,
            WallType::NORTH,
            offset.x as int,
            offset.y as int,
            offset.z as int,
        ),
{
    make_solid_wall(WallType::NORTH, ground_size, offset, wall_height, wall_thickness)
}

/// Solid slab for the south slot (face at `-z`).
pub fn make_south_wall(
    ground_size: i64,
    offset: Point3,
    wall_height: i64,
    wall_thickness: i64,
) -> (r: WallPiece)
    requires
        offset.in_range(),
        0 < ground_size <= 2 * COORD_LIMIT,
        0 < wall_height <= COORD_LIMIT,
        0 < wall_thickness <= COORD_LIMIT,
    ensures
        is_solid_wall_piece(
            r,
            ground_size as int,
            wall_thickness as int,
            wall_height as int,
            WallType::SOUTH,
            offset.x as int,
            offset.y as int,
            offset.z as int,
        ),
{
    make_solid_wall(WallType::SOUTH, ground_size, offset, wall_height, wall_thickness)
}

/// Solid slab for the west slot (face at `-x`).
pub fn make_west_wall(
    ground_size: i64,
    offset: Point3,
    wall_height: i64,
    wall_thickness: i64,
) -> (r: WallPiece)
    requires
        offset.in_range(),
        0 < ground_size <= 2 * COORD_LIMIT,
        0 < wall_height <= COORD_LIMIT,
        0 < wall_thickness <= COORD_LIMIT,
    ensures
        is_solid_wall_piece(
            r,
            ground_size as int,
            wall_thickness as int,
            wall_height as int,
            WallType::WEST,
            offset.x as int,
            offset.y as int,
            offset.z as int,
        ),
{
    make_solid_wall(WallType::WEST, ground_size, offset, wall_height, wall_thickness)
}

/// Solid slab for the east slot (face at `+x`).
pub fn make_east_wall(
    ground_size: i64,
    offset: Point3,
    wall_height: i64,
    wall_thickness: i64,
) -> (r: WallPiece)
    requires
        offset.in_range(),
        0 < ground_size <= 2 * COORD_LIMIT,
        0 < wall_height <= COORD_LIMIT,
        0 < wall_thickness <= COORD_LIMIT,
    ensures
        is_solid_wall_piece(
            r,
            ground_size as int,
            wall_thickness as int,
            wall_height as int,
            WallType::EAST,
            offset.x as int,
            offset.y as int,
            offset.z as int,
        ),
{
    make_solid_wall(WallType::EAST, ground_size, offset, wall_height, wall_thickness)
}

/// Builds the three-piece door wall for a face centered at `offset`,
/// spanning `ground_size + extension` to each side.
///
/// Refuses the configuration — rather than emitting a degenerate lintel —
/// when the door radius reaches half the wall height.
pub fn spawn_wall_with_hole(
    wall_thickness: i64,
    wall_height: i64,
    door_radius: i64,
    ground_size: i64,
    offset: Point3,
    extension: i64,
    orientation: WallOrientation,
) -> (r: Result<Vec<WallPiece>, ConfigError>)
    requires
        offset.within(3 * COORD_LIMIT),
        0 < wall_thickness <= COORD_LIMIT,
        0 < wall_height <= COORD_LIMIT,
        0 < door_radius <= COORD_LIMIT,
        0 < ground_size <= 2 * COORD_LIMIT,
        -COORD_LIMIT <= extension <= COORD_LIMIT,
        ground_size + extension > 0,
    ensures
        r is Ok <==> 2 * door_radius < wall_height,
        r matches Err(e) ==> e == ConfigError::DoorTooLarge,
        r matches Ok(ps) ==> door_wall_pieces_ok(
            ps@,
            ground_size + extension,
            wall_thickness as int,
            wall_height as int,
            door_radius as int,
            offset.x as int,
            offset.y as int,
            offset.z as int,
            orientation,
        ),
{
    if 2 * door_radius >= wall_height {
        return Err(ConfigError::DoorTooLarge);
    }

    let extended_size: i64 = ground_size + extension;

    let hole_h: i64 = 2 * door_radius;
    let top_h: i64 = wall_height - hole_h;
    let top_y: i64 = hole_h + half_of(top_h);
    let half_t: i64 = half_of(wall_thickness);
    let half_h: i64 = half_of(wall_height);

    let side_c: i64 = half_of(extended_size + door_radius);
    let side_half_w: i64 = side_c - door_radius;
    proof {
        // (es + dr) / 2 - dr == (es - dr) / 2, hoisting the subtracted door
        // radius over the halving.
        lemma_hoist_over_denominator(
            extended_size - door_radius,
            door_radius as int,
            2nat,
        );
    }

    let mut pieces: Vec<WallPiece> = Vec::new();

    match orientation {
        WallOrientation::AlongX => {
            pieces.push(WallPiece {
                kind: WallPieceKind::Lintel,
                orientation,
                geom: BoxGeom {
                    center: Point3::new(offset.x, offset.y + top_y, offset.z),
                    half: Point3::new(extended_size, half_of(top_h), half_t),
                },
            });
            pieces.push(WallPiece {
                kind: WallPieceKind::Jamb,
                orientation,
                geom: BoxGeom {
                    center: Point3::new(offset.x - side_c, offset.y + half_h, offset.z),
                    half: Point3::new(side_half_w, half_h, half_t),
                },
            });
            pieces.push(WallPiece {
                kind: WallPieceKind::Jamb,
                orientation,
                geom: BoxGeom {
                    center: Point3::new(offset.x + side_c, offset.y + half_h, offset.z),
                    half: Point3::new(side_half_w, half_h, half_t),
                },
            });
        },
        WallOrientation::AlongZ => {
            pieces.push(WallPiece {
                kind: WallPieceKind::Lintel,
                orientation,
                geom: BoxGeom {
                    center: Point3::new(offset.x, offset.y + top_y, offset.z),
                    half: Point3::new(half_t, half_of(top_h), extended_size),
                },
            });
            pieces.push(WallPiece {
                kind: WallPieceKind::Jamb,
                orientation,
                geom: BoxGeom {
                    center: Point3::new(offset.x, offset.y + half_h, offset.z - side_c),
                    half: Point3::new(half_t, half_h, side_half_w),
                },
            });
            pieces.push(WallPiece {
                kind: WallPieceKind::Jamb,
                orientation,
                geom: BoxGeom {
                    center: Point3::new(offset.x, offset.y + half_h, offset.z + side_c),
                    half: Point3::new(half_t, half_h, side_half_w),
                },
            });
        },
    }

    Ok(pieces)
}

/// Expands one wall slot of a room according to its policy: nothing for an
/// empty side, three pieces for a door side, one solid slab otherwise.
pub fn build_wall_slot(
    wall: WallType,
    ground_size: i64,
    wall_thickness: i64,
    wall_height: i64,
    door_radius: i64,
    offset: Point3,
    empty_side: &WallSet,
    door_side: &WallSet,
) -> (r: Result<Option<WallGroup>, ConfigError>)
    requires
        offset.in_range(),
        0 < ground_size <= 2 * COORD_LIMIT,
        0 < wall_thickness <= COORD_LIMIT,
        0 < wall_height <= COORD_LIMIT,
        0 < door_radius <= COORD_LIMIT,
    ensures
        empty_side.has(wall) ==> (r matches Ok(g) && g is None),
        !empty_side.has(wall) && door_side.has(wall) && 2 * door_radius >= wall_height ==> (r
            matches Err(e) && e == ConfigError::DoorTooLarge),
        !empty_side.has(wall) && (!door_side.has(wall) || 2 * door_radius < wall_height) ==> (r
            matches Ok(g) && g matches Some(group) && wall_group_ok(
            group,
            wall,
            ground_size as int,
            wall_thickness as int,
            wall_height as int,
            door_radius as int,
            offset.x as int,
            offset.y as int,
            offset.z as int,
            door_side.has(wall),
        )),
{
    if empty_side.contains(wall) {
        return Ok(None);
    }
    if door_side.contains(wall) {
        let sign: i64 = wall.normal_sign();
        let or = wall.orientation();
        let face = match or {
            WallOrientation::AlongX => Point3::new(offset.x, offset.y, offset.z + sign * ground_size),
            WallOrientation::AlongZ => Point3::new(offset.x + sign * ground_size, offset.y, offset.z),
        };
        match spawn_wall_with_hole(
            wall_thickness,
            wall_height,
            door_radius,
            ground_size,
            face,
            0,
            or,
        ) {
            Ok(pieces) => Ok(Some(WallGroup { wall, pieces })),
            Err(e) => Err(e),
        }
    } else {
        let piece = make_solid_wall(wall, ground_size, offset, wall_height, wall_thickness);
        let mut pieces: Vec<WallPiece> = Vec::new();
        pieces.push(piece);
        Ok(Some(WallGroup { wall, pieces }))
    }
}

} // verus!
