//! Header-derived records: the recursively-typed property values and the
//! flat bookkeeping records of the content section.

use vstd::prelude::*;
use crate::primitives::Float32;

verus! {

/// A recursively-typed header value: number, string, boolean, array of
/// keyed property lists, or a named nested property list. This is the one
/// place the format requires arbitrary nesting, so it is the only
/// recursive value shape in the model. Keyed lists keep their declaration
/// order and may contain duplicate keys.
#[derive(Debug)]
pub enum HeaderProp {
    Array(Vec<Vec<(String, HeaderProp)>>),
    Bool(bool),
    Byte { kind: String, value: Option<String> },
    Float(Float32),
    Int(i32),
    Name(String),
    QWord(u64),
    Str(String),
    Struct { name: String, fields: Vec<(String, HeaderProp)> },
}

/// An annotated significant in-game moment (for example a goal), anchored
/// to a frame slightly before the event so playback has ramp-up time.
#[derive(Debug, Clone, PartialEq)]
pub struct TickMark {
    pub description: String,
    pub frame: i32,
}

/// A reference point in the frame timeline used for efficient seeking.
#[derive(Debug, Clone, Copy, PartialEq, Eq, Structural)]
pub struct KeyFrame {
    pub time: Float32,
    pub frame: i32,
    pub position: i32,
}

/// Debugging info stored in the replay when debugging was enabled.
#[derive(Debug, Clone, PartialEq)]
pub struct DebugInfo {
    pub frame: i32,
    pub user: String,
    pub text: String,
}

/// A mapping between an object's name and its index.
#[derive(Debug, Clone, PartialEq)]
pub struct ClassIndex {
    pub class: String,
    pub index: i32,
}

/// A mapping between an attribute object's index and its stream id in the
/// network data.
#[derive(Debug, Clone, Copy, PartialEq, Eq, Structural)]
pub struct CacheProp {
    pub object_ind: i32,
    pub stream_id: i32,
}

/// The per-class object-index to stream-id mappings used to interpret that
/// class's network attributes. `properties` keeps decode order.
#[derive(Debug, Clone, PartialEq)]
pub struct ClassNetCache {
    pub object_ind: i32,
    pub parent_id: i32,
    pub cache_id: i32,
    pub properties: Vec<CacheProp>,
}

} // verus!
