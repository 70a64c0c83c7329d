//! The per-tick actor lifecycle and attribute-update events decoded from
//! the network stream.

use vstd::prelude::*;
use crate::attributes::Attribute;
use crate::primitives::{ActorId, Float32, ObjectId, Rotation, StreamId, Vector3i};

verus! {

/// The optional location and rotation of an actor when it spawns.
#[derive(Debug, Clone, Copy, PartialEq)]
pub struct Trajectory {
    pub location: Option<Vector3i>,
    pub rotation: Option<Rotation>,
}

/// An actor that appeared during a frame.
#[derive(Debug, Clone, Copy, PartialEq)]
pub struct NewActor {
    pub actor_id: ActorId,
    pub name_id: Option<i32>,
    pub object_id: ObjectId,
    pub initial_trajectory: Trajectory,
}

/// One property change of one actor in one frame.
#[derive(Debug, Clone, PartialEq)]
pub struct UpdatedAttribute {
    pub actor_id: ActorId,
    pub stream_id: StreamId,
    pub object_id: ObjectId,
    pub attribute: Attribute,
}

/// One discrete time-step of the playback timeline. The three event lists
/// keep the order in which the decode engine emitted them.
#[derive(Debug, Clone, PartialEq)]
pub struct Frame {
    /// The time in seconds the frame was recorded at; non-decreasing
    /// across the frame sequence.
    pub time: Float32,
    /// Seconds since the previous frame.
    pub delta: Float32,
    pub new_actors: Vec<NewActor>,
    pub deleted_actors: Vec<ActorId>,
    pub updated_actors: Vec<UpdatedAttribute>,
}

/// The frames decoded from the network data, in temporal decode order;
/// this order is the playback timeline and is preserved exactly.
#[derive(Debug, Clone, PartialEq)]
pub struct NetworkFrames {
    pub frames: Vec<Frame>,
}

} // verus!
