//! Procedural room-layout generation and point-in-room lookup for a
//! first-person dungeon crawler.
//!
//! A level is a hand-authored, ordered list of room specifications (size
//! extension, wall height, per-wall policy, world offset).  The library
//! expands each specification into axis-aligned box descriptors for floors,
//! walls (solid, or split around a door opening), roofs and lights, derives
//! one axis-aligned bounding box per room, and resolves a world position to
//! the first room whose box contains it.
//!
//! All lengths and coordinates are integers in tenths of a world unit, so
//! every descriptor is exact; the rendering and physics engine that consumes
//! the descriptors is deliberately out of scope.

pub mod bounds;
pub mod builder;
pub mod constants;
pub mod geometry;
pub mod hud;
pub mod map;
pub mod room;
pub mod walls;
