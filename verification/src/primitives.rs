//! Fixed-shape numeric records shared by the header and network models.
//!
//! Single-precision floating-point fields of the replay format are carried
//! as their IEEE-754 bit patterns in [`Float32`], so every numeric value in
//! the model is a plain integer and conversion through the boundary
//! representation is exact (no rounding, no lossy re-encoding).

use vstd::prelude::*;

verus! {

/// A single-precision floating-point value, carried losslessly as its
/// 32-bit IEEE-754 bit pattern.
#[derive(Debug, Clone, Copy, PartialEq, Eq, Structural)]
pub struct Float32 {
    pub bits: u32,
}

/// A position or velocity in world coordinates.
#[derive(Debug, Clone, Copy, PartialEq, Eq, Structural)]
pub struct Vector3f {
    pub x: Float32,
    pub y: Float32,
    pub z: Float32,
}

/// An integer-quantised vector, used for spawn locations.
#[derive(Debug, Clone, Copy, PartialEq, Eq, Structural)]
pub struct Vector3i {
    pub x: i32,
    pub y: i32,
    pub z: i32,
}

/// An orientation as a unit quaternion (components as bit patterns).
#[derive(Debug, Clone, Copy, PartialEq, Eq, Structural)]
pub struct Quaternion {
    pub x: Float32,
    pub y: Float32,
    pub z: Float32,
    pub w: Float32,
}

/// A compressed rotation; each 8-bit signed component is independently
/// optional, so any subset of yaw, pitch and roll may be present.
#[derive(Debug, Clone, Copy, PartialEq)]
pub struct Rotation {
    pub yaw: Option<i8>,
    pub pitch: Option<i8>,
    pub roll: Option<i8>,
}

/// Identifies an actor in the network stream. Actor ids are not unique
/// across a replay: once an actor is destroyed its id may be reused, so any
/// index over actor ids must also be keyed by the frame window in which the
/// id was live, never by the id alone.
#[derive(Debug, Clone, Copy, PartialEq, Eq, Structural)]
pub struct ActorId(pub i32);

/// The index of an object in the replay's object table.
#[derive(Debug, Clone, Copy, PartialEq, Eq, Structural)]
pub struct ObjectId(pub i32);

/// The compressed per-class form of an object id in the network stream.
#[derive(Debug, Clone, Copy, PartialEq, Eq, Structural)]
pub struct StreamId(pub i32);

} // verus!
