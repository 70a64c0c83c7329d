//! Assembly of the boundary document: converts a decoded replay into the
//! generic structured value, preserving every ordering the format gives it.
//!
//! Nothing here reorders, deduplicates or sorts: the property list keeps
//! header declaration order (duplicate keys included), the frame sequence
//! keeps temporal decode order, and each frame's spawned/destroyed/updated
//! lists keep engine emission order. Each `is_*_value` spec function pins
//! the representation index by index, so those orderings are part of what
//! is proved, not a convention.

use vstd::prelude::*;
use crate::boundary::Value;
use crate::codec::{
    attribute_value, is_attribute_value, is_opt_i32_value, is_opt_rotation_value,
    is_opt_str_value, opt_rotation_value, opt_str_value,
};
use crate::header::{CacheProp, ClassIndex, ClassNetCache, DebugInfo, HeaderProp, KeyFrame, TickMark};
use crate::network::{Frame, NetworkFrames, NewActor, Trajectory, UpdatedAttribute};
use crate::replay::Replay;

verus! {

/// A recursively-typed header value: scalars directly, an array as the
/// array of its keyed lists, a named nested list with `name` and `fields`.
pub open spec fn is_header_prop_value(p: HeaderProp, v: Value) -> bool
    decreases p,
{
    match p {
        HeaderProp::Array(rows) => {
            &&& v matches Value::Array(items)
            &&& items@.len() == rows@.len()
            &&& forall|i: int|
                0 <= i < rows@.len() ==> is_prop_list_value(rows@[i], #[trigger] items@[i])
        },
        HeaderProp::Bool(b) => v == Value::Bool(b),
        HeaderProp::Byte { kind, value } => {
            &&& v matches Value::Object(es)
            &&& es@.len() == 2
            &&& es@[0].0@ == "kind"@ && es@[0].1 == Value::Str(kind)
            &&& es@[1].0@ == "value"@ && is_opt_str_value(value, es@[1].1)
        },
        HeaderProp::Float(x) => v == Value::F32(x),
        HeaderProp::Int(x) => v == Value::I32(x),
        HeaderProp::Name(s) => v == Value::Str(s),
        HeaderProp::QWord(x) => v == Value::U64(x),
        HeaderProp::Str(s) => v == Value::Str(s),
        HeaderProp::Struct { name, fields } => {
            &&& v matches Value::Object(es)
            &&& es@.len() == 2
            &&& es@[0].0@ == "name"@ && es@[0].1 == Value::Str(name)
            &&& es@[1].0@ == "fields"@ && is_prop_list_value(fields, es@[1].1)
        },
    }
}

/// A keyed property list: an object with the same keys in the same order —
/// position `i` of the object is position `i` of the list, so declaration
/// order and duplicate keys survive.
pub open spec fn is_prop_list_value(props: Vec<(String, HeaderProp)>, v: Value) -> bool
    decreases props,
{
    &&& v matches Value::Object(es)
    &&& es@.len() == props@.len()
    &&& forall|i: int|
        0 <= i < props@.len() ==> (#[trigger] es@[i]).0 == props@[i].0
            && is_header_prop_value(props@[i].1, es@[i].1)
}

pub fn header_prop_value(p: &HeaderProp) -> (v: Value)
    ensures
        is_header_prop_value(*p, v),
    decreases *p,
{
    match p {
        HeaderProp::Array(rows) => {
            let mut items: Vec<Value> = Vec::new();
            let mut i: usize = 0;
            while i < rows.len()
                invariant
                    *p == HeaderProp::Array(*rows),
                    i <= rows@.len(),
                    items@.len() == i as int,
                    forall|j: int|
                        0 <= j < i ==> is_prop_list_value(rows@[j], #[trigger] items@[j]),
                decreases rows@.len() - i,
            {
                proof {
                    assert(decreases_to!(*p => p->Array_0));
                    assert(decreases_to!(*rows => rows@));
                    assert(decreases_to!(rows@ => rows@[i as int]));
                }
                items.push(prop_list_value(&rows[i]));
                i = i + 1;
            }
            Value::Array(items)
        },
        HeaderProp::Bool(b) => Value::Bool(*b),
        HeaderProp::Byte { kind, value } => {
            let mut es: Vec<(String, Value)> = Vec::new();
            es.push(("kind".to_owned(), Value::Str(kind.clone())));
            es.push(("value".to_owned(), opt_str_value(value)));
            Value::Object(es)
        },
        HeaderProp::Float(x) => Value::F32(*x),
        HeaderProp::Int(x) => Value::I32(*x),
        HeaderProp::Name(s) => Value::Str(s.clone()),
        HeaderProp::QWord(x) => Value::U64(*x),
        HeaderProp::Str(s) => Value::Str(s.clone()),
        HeaderProp::Struct { name, fields } => {
            let mut es: Vec<(String, Value)> = Vec::new();
            es.push(("name".to_owned(), Value::Str(name.clone())));
            es.push(("fields".to_owned(), prop_list_value(fields)));
            Value::Object(es)
        },
    }
}

pub fn prop_list_value(props: &Vec<(String, HeaderProp)>) -> (v: Value)
    ensures
        is_prop_list_value(*props, v),
    decreases *props,
{
    let mut es: Vec<(String, Value)> = Vec::new();
    let mut i: usize = 0;
    while i < props.len()
        invariant
            i <= props@.len(),
            es@.len() == i as int,
            forall|j: int|
                0 <= j < i ==> (#[trigger] es@[j]).0 == props@[j].0
                    && is_header_prop_value(props@[j].1, es@[j].1),
        decreases props@.len() - i,
    {
        proof {
            assert(decreases_to!(*props => props@));
            assert(decreases_to!(props@ => props@[i as int]));
            assert(decreases_to!(props@[i as int] => props@[i as int].1));
        }
        es.push((props[i].0.clone(), header_prop_value(&props[i].1)));
        i = i + 1;
    }
    Value::Object(es)
}

/// A list of strings, in order.
pub open spec fn is_text_list_value(ts: Seq<String>, v: Value) -> bool {
    &&& v matches Value::Array(items)
    &&& items@.len() == ts.len()
    &&& forall|i: int| 0 <= i < ts.len() ==> #[trigger] items@[i] == Value::Str(ts[i])
}

pub fn text_list_value(ts: &Vec<String>) -> (v: Value)
    ensures
        is_text_list_value(ts@, v),
{
    let mut items: Vec<Value> = Vec::new();
    let mut i: usize = 0;
    while i < ts.len()
        invariant
            i <= ts@.len(),
            items@.len() == i as int,
            forall|j: int| 0 <= j < i ==> #[trigger] items@[j] == Value::Str(ts@[j]),
        decreases ts@.len() - i,
    {
        items.push(Value::Str(ts[i].clone()));
        i = i + 1;
    }
    Value::Array(items)
}

/// A tick mark: its description and anchor frame.
pub open spec fn is_tick_mark_value(t: TickMark, v: Value) -> bool {
    &&& v matches Value::Object(es)
    &&& es@.len() == 2
    &&& es@[0].0@ == "description"@ && es@[0].1 == Value::Str(t.description)
    &&& es@[1].0@ == "frame"@ && es@[1].1 == Value::I32(t.frame)
}

pub fn tick_mark_value(t: &TickMark) -> (v: Value)
    ensures
        is_tick_mark_value(*t, v),
{
    let mut es: Vec<(String, Value)> = Vec::new();
    es.push(("description".to_owned(), Value::Str(t.description.clone())));
    es.push(("frame".to_owned(), Value::I32(t.frame)));
    Value::Object(es)
}

/// A seek keyframe.
pub open spec fn is_key_frame_value(k: KeyFrame, v: Value) -> bool {
    &&& v matches Value::Object(es)
    &&& es@.len() == 3
    &&& es@[0].0@ == "time"@ && es@[0].1 == Value::F32(k.time)
    &&& es@[1].0@ == "frame"@ && es@[1].1 == Value::I32(k.frame)
    &&& es@[2].0@ == "position"@ && es@[2].1 == Value::I32(k.position)
}

pub fn key_frame_value(k: &KeyFrame) -> (v: Value)
    ensures
        is_key_frame_value(*k, v),
{
    let mut es: Vec<(String, Value)> = Vec::new();
    es.push(("time".to_owned(), Value::F32(k.time)));
    es.push(("frame".to_owned(), Value::I32(k.frame)));
    es.push(("position".to_owned(), Value::I32(k.position)));
    Value::Object(es)
}

/// A debug record.
pub open spec fn is_debug_info_value(d: DebugInfo, v: Value) -> bool {
    &&& v matches Value::Object(es)
    &&& es@.len() == 3
    &&& es@[0].0@ == "frame"@ && es@[0].1 == Value::I32(d.frame)
    &&& es@[1].0@ == "user"@ && es@[1].1 == Value::Str(d.user)
    &&& es@[2].0@ == "text"@ && es@[2].1 == Value::Str(d.text)
}

pub fn debug_info_value(d: &DebugInfo) -> (v: Value)
    ensures
        is_debug_info_value(*d, v),
{
    let mut es: Vec<(String, Value)> = Vec::new();
    es.push(("frame".to_owned(), Value::I32(d.frame)));
    es.push(("user".to_owned(), Value::Str(d.user.clone())));
    es.push(("text".to_owned(), Value::Str(d.text.clone())));
    Value::Object(es)
}

/// A class-name to index mapping.
pub open spec fn is_class_index_value(c: ClassIndex, v: Value) -> bool {
    &&& v matches Value::Object(es)
    &&& es@.len() == 2
    &&& es@[0].0@ == "class"@ && es@[0].1 == Value::Str(c.class)
    &&& es@[1].0@ == "index"@ && es@[1].1 == Value::I32(c.index)
}

pub fn class_index_value(c: &ClassIndex) -> (v: Value)
    ensures
        is_class_index_value(*c, v),
{
    let mut es: Vec<(String, Value)> = Vec::new();
    es.push(("class".to_owned(), Value::Str(c.class.clone())));
    es.push(("index".to_owned(), Value::I32(c.index)));
    Value::Object(es)
}

/// An object-index to stream-id mapping.
pub open spec fn is_cache_prop_value(c: CacheProp, v: Value) -> bool {
    &&& v matches Value::Object(es)
    &&& es@.len() == 2
    &&& es@[0].0@ == "object_ind"@ && es@[0].1 == Value::I32(c.object_ind)
    &&& es@[1].0@ == "stream_id"@ && es@[1].1 == Value::I32(c.stream_id)
}

pub fn cache_prop_value(c: &CacheProp) -> (v: Value)
    ensures
        is_cache_prop_value(*c, v),
{
    let mut es: Vec<(String, Value)> = Vec::new();
    es.push(("object_ind".to_owned(), Value::I32(c.object_ind)));
    es.push(("stream_id".to_owned(), Value::I32(c.stream_id)));
    Value::Object(es)
}

/// A per-class net cache entry; its property list keeps decode order.
pub open spec fn is_class_net_cache_value(c: ClassNetCache, v: Value) -> bool {
    &&& v matches Value::Object(es)
    &&& es@.len() == 4
    &&& es@[0].0@ == "object_ind"@ && es@[0].1 == Value::I32(c.object_ind)
    &&& es@[1].0@ == "parent_id"@ && es@[1].1 == Value::I32(c.parent_id)
    &&& es@[2].0@ == "cache_id"@ && es@[2].1 == Value::I32(c.cache_id)
    &&& es@[3].0@ == "properties"@ && (es@[3].1 matches Value::Array(items)
        && items@.len() == c.properties@.len()
        && (forall|i: int|
            0 <= i < c.properties@.len() ==> is_cache_prop_value(
                c.properties@[i],
                #[trigger] items@[i],
            )))
}

pub fn class_net_cache_value(c: &ClassNetCache) -> (v: Value)
    ensures
        is_class_net_cache_value(*c, v),
{
    let mut items: Vec<Value> = Vec::new();
    let mut i: usize = 0;
    while i < c.properties.len()
        invariant
            i <= c.properties@.len(),
            items@.len() == i as int,
            forall|j: int|
                0 <= j < i ==> is_cache_prop_value(c.properties@[j], #[trigger] items@[j]),
        decreases c.properties@.len() - i,
    {
        items.push(cache_prop_value(&c.properties[i]));
        i = i + 1;
    }
    let mut es: Vec<(String, Value)> = Vec::new();
    es.push(("object_ind".to_owned(), Value::I32(c.object_ind)));
    es.push(("parent_id".to_owned(), Value::I32(c.parent_id)));
    es.push(("cache_id".to_owned(), Value::I32(c.cache_id)));
    es.push(("properties".to_owned(), Value::Array(items)));
    Value::Object(es)
}

/// A spawn trajectory: optional location and rotation.
pub open spec fn is_trajectory_value(t: Trajectory, v: Value) -> bool {
    &&& v matches Value::Object(es)
    &&& es@.len() == 2
    &&& es@[0].0@ == "location"@ && (match t.location {
        Some(x) => crate::codec::is_vector3i_value(x, es@[0].1),
        None => es@[0].1 == Value::Null,
    })
    &&& es@[1].0@ == "rotation"@ && is_opt_rotation_value(t.rotation, es@[1].1)
}

pub fn trajectory_value(t: &Trajectory) -> (v: Value)
    ensures
        is_trajectory_value(*t, v),
{
    let loc: Value = match &t.location {
        Some(x) => crate::codec::vector3i_value(x),
        None => Value::Null,
    };
    let mut es: Vec<(String, Value)> = Vec::new();
    es.push(("location".to_owned(), loc));
    es.push(("rotation".to_owned(), opt_rotation_value(&t.rotation)));
    Value::Object(es)
}

/// A spawned actor.
pub open spec fn is_new_actor_value(n: NewActor, v: Value) -> bool {
    &&& v matches Value::Object(es)
    &&& es@.len() == 4
    &&& es@[0].0@ == "actor_id"@ && es@[0].1 == Value::I32(n.actor_id.0)
    &&& es@[1].0@ == "name_id"@ && is_opt_i32_value(n.name_id, es@[1].1)
    &&& es@[2].0@ == "object_id"@ && es@[2].1 == Value::I32(n.object_id.0)
    &&& es@[3].0@ == "initial_trajectory"@ && is_trajectory_value(n.initial_trajectory, es@[3].1)
}

pub fn new_actor_value(n: &NewActor) -> (v: Value)
    ensures
        is_new_actor_value(*n, v),
{
    let mut es: Vec<(String, Value)> = Vec::new();
    es.push(("actor_id".to_owned(), Value::I32(n.actor_id.0)));
    es.push(("name_id".to_owned(), crate::codec::opt_i32_value(&n.name_id)));
    es.push(("object_id".to_owned(), Value::I32(n.object_id.0)));
    es.push(("initial_trajectory".to_owned(), trajectory_value(&n.initial_trajectory)));
    Value::Object(es)
}

/// One actor-property update.
pub open spec fn is_updated_attribute_value(u: UpdatedAttribute, v: Value) -> bool {
    &&& v matches Value::Object(es)
    &&& es@.len() == 4
    &&& es@[0].0@ == "actor_id"@ && es@[0].1 == Value::I32(u.actor_id.0)
    &&& es@[1].0@ == "stream_id"@ && es@[1].1 == Value::I32(u.stream_id.0)
    &&& es@[2].0@ == "object_id"@ && es@[2].1 == Value::I32(u.object_id.0)
    &&& es@[3].0@ == "attribute"@ && is_attribute_value(u.attribute, es@[3].1)
}

pub fn updated_attribute_value(u: &UpdatedAttribute) -> (v: Value)
    ensures
        is_updated_attribute_value(*u, v),
{
    let mut es: Vec<(String, Value)> = Vec::new();
    es.push(("actor_id".to_owned(), Value::I32(u.actor_id.0)));
    es.push(("stream_id".to_owned(), Value::I32(u.stream_id.0)));
    es.push(("object_id".to_owned(), Value::I32(u.object_id.0)));
    es.push(("attribute".to_owned(), attribute_value(&u.attribute)));
    Value::Object(es)
}

/// One frame: its two times, then the spawned, destroyed and updated
/// lists, each in engine emission order, index by index.
pub open spec fn is_frame_value(f: Frame, v: Value) -> bool {
    &&& v matches Value::Object(es)
    &&& es@.len() == 5
    &&& es@[0].0@ == "time"@ && es@[0].1 == Value::F32(f.time)
    &&& es@[1].0@ == "delta"@ && es@[1].1 == Value::F32(f.delta)
    &&& es@[2].0@ == "new_actors"@ && (es@[2].1 matches Value::Array(ns)
        && ns@.len() == f.new_actors@.len()
        && (forall|i: int|
            0 <= i < f.new_actors@.len() ==> is_new_actor_value(
                f.new_actors@[i],
                #[trigger] ns@[i],
            )))
    &&& es@[3].0@ == "deleted_actors"@ && (es@[3].1 matches Value::Array(ds)
        && ds@.len() == f.deleted_actors@.len()
        && (forall|i: int|
            0 <= i < f.deleted_actors@.len() ==> #[trigger] ds@[i] == Value::I32(
                f.deleted_actors@[i].0,
            )))
    &&& es@[4].0@ == "updated_actors"@ && (es@[4].1 matches Value::Array(us)
        && us@.len() == f.updated_actors@.len()
        && (forall|i: int|
            0 <= i < f.updated_actors@.len() ==> is_updated_attribute_value(
                f.updated_actors@[i],
                #[trigger] us@[i],
            )))
}

pub fn frame_value(f: &Frame) -> (v: Value)
    ensures
        is_frame_value(*f, v),
{
    let mut ns: Vec<Value> = Vec::new();
    let mut i: usize = 0;
    while i < f.new_actors.len()
        invariant
            i <= f.new_actors@.len(),
            ns@.len() == i as int,
            forall|j: int|
                0 <= j < i ==> is_new_actor_value(f.new_actors@[j], #[trigger] ns@[j]),
        decreases f.new_actors@.len() - i,
    {
        ns.push(new_actor_value(&f.new_actors[i]));
        i = i + 1;
    }
    let mut ds: Vec<Value> = Vec::new();
    let mut k: usize = 0;
    while k < f.deleted_actors.len()
        invariant
            k <= f.deleted_actors@.len(),
            ds@.len() == k as int,
            forall|j: int| 0 <= j < k ==> #[trigger] ds@[j] == Value::I32(f.deleted_actors@[j].0),
        decreases f.deleted_actors@.len() - k,
    {
        ds.push(Value::I32(f.deleted_actors[k].0));
        k = k + 1;
    }
    let mut us: Vec<Value> = Vec::new();
    let mut m: usize = 0;
    while m < f.updated_actors.len()
        invariant
            m <= f.updated_actors@.len(),
            us@.len() == m as int,
            forall|j: int|
                0 <= j < m ==> is_updated_attribute_value(f.updated_actors@[j], #[trigger] us@[j]),
        decreases f.updated_actors@.len() - m,
    {
        us.push(updated_attribute_value(&f.updated_actors[m]));
        m = m + 1;
    }
    let mut es: Vec<(String, Value)> = Vec::new();
    es.push(("time".to_owned(), Value::F32(f.time)));
    es.push(("delta".to_owned(), Value::F32(f.delta)));
    es.push(("new_actors".to_owned(), Value::Array(ns)));
    es.push(("deleted_actors".to_owned(), Value::Array(ds)));
    es.push(("updated_actors".to_owned(), Value::Array(us)));
    Value::Object(es)
}

/// The frame sequence in temporal decode order — the playback timeline —
/// or an absent network section.
pub open spec fn is_network_frames_value(o: Option<NetworkFrames>, v: Value) -> bool {
    match o {
        Some(nf) => {
            &&& v matches Value::Object(es)
            &&& es@.len() == 1
            &&& es@[0].0@ == "frames"@ && (es@[0].1 matches Value::Array(fs)
                && fs@.len() == nf.frames@.len()
                && (forall|i: int|
                    0 <= i < nf.frames@.len() ==> is_frame_value(nf.frames@[i], #[trigger] fs@[i])))
        },
        None => v == Value::Null,
    }
}

pub fn network_frames_value(o: &Option<NetworkFrames>) -> (v: Value)
    ensures
        is_network_frames_value(*o, v),
{
    match o {
        None => Value::Null,
        Some(nf) => {
            let mut fs: Vec<Value> = Vec::new();
            let mut i: usize = 0;
            while i < nf.frames.len()
                invariant
                    i <= nf.frames@.len(),
                    fs@.len() == i as int,
                    forall|j: int|
                        0 <= j < i ==> is_frame_value(nf.frames@[j], #[trigger] fs@[j]),
                decreases nf.frames@.len() - i,
            {
                fs.push(frame_value(&nf.frames[i]));
                i = i + 1;
            }
            let mut es: Vec<(String, Value)> = Vec::new();
            es.push(("frames".to_owned(), Value::Array(fs)));
            Value::Object(es)
        },
    }
}

/// Helper lists of record values, each in order.
pub open spec fn is_key_frame_list_value(ks: Seq<KeyFrame>, v: Value) -> bool {
    &&& v matches Value::Array(items)
    &&& items@.len() == ks.len()
    &&& forall|i: int| 0 <= i < ks.len() ==> is_key_frame_value(ks[i], #[trigger] items@[i])
}

fn key_frame_list_value(ks: &Vec<KeyFrame>) -> (v: Value)
    ensures
        is_key_frame_list_value(ks@, v),
{
    let mut items: Vec<Value> = Vec::new();
    let mut i: usize = 0;
    while i < ks.len()
        invariant
            i <= ks@.len(),
            items@.len() == i as int,
            forall|j: int| 0 <= j < i ==> is_key_frame_value(ks@[j], #[trigger] items@[j]),
        decreases ks@.len() - i,
    {
        items.push(key_frame_value(&ks[i]));
        i = i + 1;
    }
    Value::Array(items)
}

pub open spec fn is_debug_info_list_value(ds: Seq<DebugInfo>, v: Value) -> bool {
    &&& v matches Value::Array(items)
    &&& items@.len() == ds.len()
    &&& forall|i: int| 0 <= i < ds.len() ==> is_debug_info_value(ds[i], #[trigger] items@[i])
}

fn debug_info_list_value(ds: &Vec<DebugInfo>) -> (v: Value)
    ensures
        is_debug_info_list_value(ds@, v),
{
    let mut items: Vec<Value> = Vec::new();
    let mut i: usize = 0;
    while i < ds.len()
        invariant
            i <= ds@.len(),
            items@.len() == i as int,
            forall|j: int| 0 <= j < i ==> is_debug_info_value(ds@[j], #[trigger] items@[j]),
        decreases ds@.len() - i,
    {
        items.push(debug_info_value(&ds[i]));
        i = i + 1;
    }
    Value::Array(items)
}

pub open spec fn is_tick_mark_list_value(ts: Seq<TickMark>, v: Value) -> bool {
    &&& v matches Value::Array(items)
    &&& items@.len() == ts.len()
    &&& forall|i: int| 0 <= i < ts.len() ==> is_tick_mark_value(ts[i], #[trigger] items@[i])
}

fn tick_mark_list_value(ts: &Vec<TickMark>) -> (v: Value)
    ensures
        is_tick_mark_list_value(ts@, v),
{
    let mut items: Vec<Value> = Vec::new();
    let mut i: usize = 0;
    while i < ts.len()
        invariant
            i <= ts@.len(),
            items@.len() == i as int,
            forall|j: int| 0 <= j < i ==> is_tick_mark_value(ts@[j], #[trigger] items@[j]),
        decreases ts@.len() - i,
    {
        items.push(tick_mark_value(&ts[i]));
        i = i + 1;
    }
    Value::Array(items)
}

pub open spec fn is_class_index_list_value(cs: Seq<ClassIndex>, v: Value) -> bool {
    &&& v matches Value::Array(items)
    &&& items@.len() == cs.len()
    &&& forall|i: int| 0 <= i < cs.len() ==> is_class_index_value(cs[i], #[trigger] items@[i])
}

fn class_index_list_value(cs: &Vec<ClassIndex>) -> (v: Value)
    ensures
        is_class_index_list_value(cs@, v),
{
    let mut items: Vec<Value> = Vec::new();
    let mut i: usize = 0;
    while i < cs.len()
        invariant
            i <= cs@.len(),
            items@.len() == i as int,
            forall|j: int| 0 <= j < i ==> is_class_index_value(cs@[j], #[trigger] items@[j]),
        decreases cs@.len() - i,
    {
        items.push(class_index_value(&cs[i]));
        i = i + 1;
    }
    Value::Array(items)
}

pub open spec fn is_net_cache_list_value(cs: Seq<ClassNetCache>, v: Value) -> bool {
    &&& v matches Value::Array(items)
    &&& items@.len() == cs.len()
    &&& forall|i: int| 0 <= i < cs.len() ==> is_class_net_cache_value(cs[i], #[trigger] items@[i])
}

fn net_cache_list_value(cs: &Vec<ClassNetCache>) -> (v: Value)
    ensures
        is_net_cache_list_value(cs@, v),
{
    let mut items: Vec<Value> = Vec::new();
    let mut i: usize = 0;
    while i < cs.len()
        invariant
            i <= cs@.len(),
            items@.len() == i as int,
            forall|j: int| 0 <= j < i ==> is_class_net_cache_value(cs@[j], #[trigger] items@[j]),
        decreases cs@.len() - i,
    {
        items.push(class_net_cache_value(&cs[i]));
        i = i + 1;
    }
    Value::Array(items)
}

/// The whole decoded document: every field by name, the property list in
/// header declaration order (position `i` of the object is property `i`),
/// the frame sequence in temporal order, all other sequences verbatim.
pub open spec fn is_replay_value(r: Replay, v: Value) -> bool {
    &&& v matches Value::Object(es)
    &&& es@.len() == 19
    &&& es@[0].0@ == "header_size"@ && es@[0].1 == Value::I32(r.header_size)
    &&& es@[1].0@ == "header_crc"@ && es@[1].1 == Value::U32(r.header_crc)
    &&& es@[2].0@ == "major_version"@ && es@[2].1 == Value::I32(r.major_version)
    &&& es@[3].0@ == "minor_version"@ && es@[3].1 == Value::I32(r.minor_version)
    &&& es@[4].0@ == "net_version"@ && is_opt_i32_value(r.net_version, es@[4].1)
    &&& es@[5].0@ == "game_type"@ && es@[5].1 == Value::Str(r.game_type)
    &&& es@[6].0@ == "properties"@ && is_prop_list_value(r.properties, es@[6].1)
    &&& es@[7].0@ == "content_size"@ && es@[7].1 == Value::I32(r.content_size)
    &&& es@[8].0@ == "content_crc"@ && es@[8].1 == Value::U32(r.content_crc)
    &&& es@[9].0@ == "network_frames"@ && is_network_frames_value(r.network_frames, es@[9].1)
    &&& es@[10].0@ == "levels"@ && is_text_list_value(r.levels@, es@[10].1)
    &&& es@[11].0@ == "keyframes"@ && is_key_frame_list_value(r.keyframes@, es@[11].1)
    &&& es@[12].0@ == "debug_info"@ && is_debug_info_list_value(r.debug_info@, es@[12].1)
    &&& es@[13].0@ == "tick_marks"@ && is_tick_mark_list_value(r.tick_marks@, es@[13].1)
    &&& es@[14].0@ == "packages"@ && is_text_list_value(r.packages@, es@[14].1)
    &&& es@[15].0@ == "objects"@ && is_text_list_value(r.objects@, es@[15].1)
    &&& es@[16].0@ == "names"@ && is_text_list_value(r.names@, es@[16].1)
    &&& es@[17].0@ == "class_indices"@ && is_class_index_list_value(r.class_indices@, es@[17].1)
    &&& es@[18].0@ == "net_cache"@ && is_net_cache_list_value(r.net_cache@, es@[18].1)
}

/// Assembles the boundary document for one decoded replay.
pub fn replay_value(r: &Replay) -> (v: Value)
    ensures
        is_replay_value(*r, v),
{
    let mut es: Vec<(String, Value)> = Vec::new();
    es.push(("header_size".to_owned(), Value::I32(r.header_size)));
    es.push(("header_crc".to_owned(), Value::U32(r.header_crc)));
    es.push(("major_version".to_owned(), Value::I32(r.major_version)));
    es.push(("minor_version".to_owned(), Value::I32(r.minor_version)));
    es.push(("net_version".to_owned(), crate::codec::opt_i32_value(&r.net_version)));
    es.push(("game_type".to_owned(), Value::Str(r.game_type.clone())));
    es.push(("properties".to_owned(), prop_list_value(&r.properties)));
    es.push(("content_size".to_owned(), Value::I32(r.content_size)));
    es.push(("content_crc".to_owned(), Value::U32(r.content_crc)));
    es.push(("network_frames".to_owned(), network_frames_value(&r.network_frames)));
    es.push(("levels".to_owned(), text_list_value(&r.levels)));
    es.push(("keyframes".to_owned(), key_frame_list_value(&r.keyframes)));
    es.push(("debug_info".to_owned(), debug_info_list_value(&r.debug_info)));
    es.push(("tick_marks".to_owned(), tick_mark_list_value(&r.tick_marks)));
    es.push(("packages".to_owned(), text_list_value(&r.packages)));
    es.push(("objects".to_owned(), text_list_value(&r.objects)));
    es.push(("names".to_owned(), text_list_value(&r.names)));
    es.push(("class_indices".to_owned(), class_index_list_value(&r.class_indices)));
    es.push(("net_cache".to_owned(), net_cache_list_value(&r.net_cache)));
    Value::Object(es)
}

/// Law (order preservation): in the boundary document the property object
/// iterates in header declaration order, the frame array follows temporal
/// decode order, and each frame's three event lists keep engine emission
/// order — entry `i` of each list is element `i` of the decoded sequence.
pub proof fn lemma_order_preserved(r: Replay, v: Value, props: Value, frames_v: Value)
    requires
        is_replay_value(r, v),
        v matches Value::Object(es) && es@[6].1 == props && es@[9].1 == frames_v,
    ensures
        props matches Value::Object(ps) && ps@.len() == r.properties@.len()
            && (forall|i: int|
                0 <= i < r.properties@.len() ==> (#[trigger] ps@[i]).0 == r.properties@[i].0),
        r.network_frames matches Some(nf) ==> (frames_v matches Value::Object(fes)
            && fes@[0].1 matches Value::Array(fs) && fs@.len() == nf.frames@.len()
            && (forall|i: int|
                0 <= i < nf.frames@.len() ==> is_frame_value(nf.frames@[i], #[trigger] fs@[i]))),
{
}

} // verus!
