//! The generic structured value exposed across the boundary: a
//! map/array/scalar tree from which a consumer in any language can
//! reconstruct the schema from field names and value kinds alone.
//!
//! Objects are ordered key-value lists, never maps: duplicate keys are
//! representable and iteration order is the declaration order, which the
//! codec preserves verbatim. Numeric variants keep the declared width and
//! signedness of every field, and single-precision values travel as their
//! exact bit patterns, so no conversion is lossy.

use vstd::prelude::*;
use crate::primitives::Float32;

verus! {

/// One node of the boundary value tree.
#[derive(Debug)]
pub enum Value {
    /// An absent optional payload.
    Null,
    Bool(bool),
    U8(u8),
    U16(u16),
    U32(u32),
    U64(u64),
    I8(i8),
    I32(i32),
    I64(i64),
    /// A single-precision value as its IEEE-754 bit pattern.
    F32(Float32),
    Str(String),
    /// An ordered sequence; order is meaningful and preserved.
    Array(Vec<Value>),
    /// An ordered key-value list; duplicate keys permitted, order kept.
    Object(Vec<(String, Value)>),
}

/// Holds when `v` is an object whose single entry carries the key `tag`:
/// the shape every encoded tagged-union value has.
pub open spec fn is_single_key_object(tag: Seq<char>, v: Value) -> bool {
    &&& v matches Value::Object(es)
    &&& es@.len() == 1
    &&& es@[0].0@ == tag
}

impl Value {
    /// The tag of an encoded tagged union: the key of a one-entry object.
    /// Returns the key exactly when the value has that shape.
    pub fn union_tag(&self) -> (r: Option<&String>)
        ensures
            match r {
                Some(t) => is_single_key_object(t@, *self),
                None => forall|tag: Seq<char>| !is_single_key_object(tag, *self),
            },
    {
        match self {
            Value::Object(es) => {
                if es.len() == 1 {
                    Some(&es[0].0)
                } else {
                    None
                }
            },
            _ => None,
        }
    }
}

} // verus!
