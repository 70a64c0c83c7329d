//! Conversion between the typed model and the boundary value tree.
//!
//! Each `is_*_value` spec function states exactly which boundary value
//! represents a model value: field names, declaration order, widths and
//! optionality. Every encoder proves that it produces that representation,
//! and for each tagged union that exactly one tag key is populated. The
//! decoders prove completeness as well: whenever some model value has the
//! given representation, that value — and no other — is returned, which is
//! what makes the serialise/re-parse round trip lossless.

use vstd::prelude::*;
use crate::attributes::{
    ActiveActor, AppliedDamage, Attribute, CamSettings, ClubColors, DamageState, Demolish,
    DemolishExtended, DemolishFx, Explosion, ExtendedExplosion, Impulse, Loadout,
    LoadoutsOnline, LogoData, MusicStinger, Pickup, PickupInfo, PickupNew, PrivateMatchSettings,
    Product, ProductValue, Ps4Id, PsyNetId, RemoteId, RepStatTitle, Reservation, RigidBody,
    StatEvent, SwitchId, TeamLoadout, TeamPaint, UniqueId, Welded,
};
use crate::boundary::{is_single_key_object, Value};
use crate::primitives::{ActorId, Float32, ObjectId, Quaternion, Rotation, Vector3f, Vector3i};

verus! {

/// Holds when `v` is an object with exactly one entry `tag: payload`: the
/// boundary shape of every populated tagged-union case.
pub open spec fn is_tagged_value(tag: Seq<char>, payload: Value, v: Value) -> bool {
    &&& v matches Value::Object(es)
    &&& es@.len() == 1
    &&& es@[0].0@ == tag
    &&& es@[0].1 == payload
}

/// An absent optional single-precision field, or its bit pattern.
pub open spec fn is_opt_f32_value(o: Option<Float32>, v: Value) -> bool {
    match o {
        Some(x) => v == Value::F32(x),
        None => v == Value::Null,
    }
}

/// An absent optional unsigned field, or its value.
pub open spec fn is_opt_u32_value(o: Option<u32>, v: Value) -> bool {
    match o {
        Some(x) => v == Value::U32(x),
        None => v == Value::Null,
    }
}

/// An absent optional byte field, or its value.
pub open spec fn is_opt_u8_value(o: Option<u8>, v: Value) -> bool {
    match o {
        Some(x) => v == Value::U8(x),
        None => v == Value::Null,
    }
}

/// An absent optional signed byte field, or its value.
pub open spec fn is_opt_i8_value(o: Option<i8>, v: Value) -> bool {
    match o {
        Some(x) => v == Value::I8(x),
        None => v == Value::Null,
    }
}

/// An absent optional signed field, or its value.
pub open spec fn is_opt_i32_value(o: Option<i32>, v: Value) -> bool {
    match o {
        Some(x) => v == Value::I32(x),
        None => v == Value::Null,
    }
}

/// An absent optional text field, or its text.
pub open spec fn is_opt_str_value(o: Option<String>, v: Value) -> bool {
    match o {
        Some(s) => v == Value::Str(s),
        None => v == Value::Null,
    }
}

/// An absent optional actor reference, or the actor id's value.
pub open spec fn is_opt_actor_value(o: Option<ActorId>, v: Value) -> bool {
    match o {
        Some(a) => v == Value::I32(a.0),
        None => v == Value::Null,
    }
}

pub fn opt_f32_value(o: &Option<Float32>) -> (v: Value)
    ensures
        is_opt_f32_value(*o, v),
{
    match o {
        Some(x) => Value::F32(*x),
        None => Value::Null,
    }
}

pub fn opt_u32_value(o: &Option<u32>) -> (v: Value)
    ensures
        is_opt_u32_value(*o, v),
{
    match o {
        Some(x) => Value::U32(*x),
        None => Value::Null,
    }
}

pub fn opt_u8_value(o: &Option<u8>) -> (v: Value)
    ensures
        is_opt_u8_value(*o, v),
{
    match o {
        Some(x) => Value::U8(*x),
        None => Value::Null,
    }
}

pub fn opt_i8_value(o: &Option<i8>) -> (v: Value)
    ensures
        is_opt_i8_value(*o, v),
{
    match o {
        Some(x) => Value::I8(*x),
        None => Value::Null,
    }
}

pub fn opt_i32_value(o: &Option<i32>) -> (v: Value)
    ensures
        is_opt_i32_value(*o, v),
{
    match o {
        Some(x) => Value::I32(*x),
        None => Value::Null,
    }
}

pub fn opt_str_value(o: &Option<String>) -> (v: Value)
    ensures
        is_opt_str_value(*o, v),
{
    match o {
        Some(s) => Value::Str(s.clone()),
        None => Value::Null,
    }
}

pub fn opt_actor_value(o: &Option<ActorId>) -> (v: Value)
    ensures
        is_opt_actor_value(*o, v),
{
    match o {
        Some(a) => Value::I32(a.0),
        None => Value::Null,
    }
}

/// A position or velocity: `x`, `y`, `z` bit patterns in order.
pub open spec fn is_vector3f_value(x: Vector3f, v: Value) -> bool {
    &&& v matches Value::Object(es)
    &&& es@.len() == 3
    &&& es@[0].0@ == "x"@ && es@[0].1 == Value::F32(x.x)
    &&& es@[1].0@ == "y"@ && es@[1].1 == Value::F32(x.y)
    &&& es@[2].0@ == "z"@ && es@[2].1 == Value::F32(x.z)
}

pub fn vector3f_value(x: &Vector3f) -> (v: Value)
    ensures
        is_vector3f_value(*x, v),
{
    let mut es: Vec<(String, Value)> = Vec::new();
    es.push(("x".to_owned(), Value::F32(x.x)));
    es.push(("y".to_owned(), Value::F32(x.y)));
    es.push(("z".to_owned(), Value::F32(x.z)));
    Value::Object(es)
}

/// An absent optional vector, or its representation.
pub open spec fn is_opt_vector3f_value(o: Option<Vector3f>, v: Value) -> bool {
    match o {
        Some(x) => is_vector3f_value(x, v),
        None => v == Value::Null,
    }
}

pub fn opt_vector3f_value(o: &Option<Vector3f>) -> (v: Value)
    ensures
        is_opt_vector3f_value(*o, v),
{
    match o {
        Some(x) => vector3f_value(x),
        None => Value::Null,
    }
}

/// An integer-quantised vector: `x`, `y`, `z` in order.
pub open spec fn is_vector3i_value(x: Vector3i, v: Value) -> bool {
    &&& v matches Value::Object(es)
    &&& es@.len() == 3
    &&& es@[0].0@ == "x"@ && es@[0].1 == Value::I32(x.x)
    &&& es@[1].0@ == "y"@ && es@[1].1 == Value::I32(x.y)
    &&& es@[2].0@ == "z"@ && es@[2].1 == Value::I32(x.z)
}

pub fn vector3i_value(x: &Vector3i) -> (v: Value)
    ensures
        is_vector3i_value(*x, v),
{
    let mut es: Vec<(String, Value)> = Vec::new();
    es.push(("x".to_owned(), Value::I32(x.x)));
    es.push(("y".to_owned(), Value::I32(x.y)));
    es.push(("z".to_owned(), Value::I32(x.z)));
    Value::Object(es)
}

/// A quaternion: `x`, `y`, `z`, `w` bit patterns in order.
pub open spec fn is_quaternion_value(q: Quaternion, v: Value) -> bool {
    &&& v matches Value::Object(es)
    &&& es@.len() == 4
    &&& es@[0].0@ == "x"@ && es@[0].1 == Value::F32(q.x)
    &&& es@[1].0@ == "y"@ && es@[1].1 == Value::F32(q.y)
    &&& es@[2].0@ == "z"@ && es@[2].1 == Value::F32(q.z)
    &&& es@[3].0@ == "w"@ && es@[3].1 == Value::F32(q.w)
}

pub fn quaternion_value(q: &Quaternion) -> (v: Value)
    ensures
        is_quaternion_value(*q, v),
{
    let mut es: Vec<(String, Value)> = Vec::new();
    es.push(("x".to_owned(), Value::F32(q.x)));
    es.push(("y".to_owned(), Value::F32(q.y)));
    es.push(("z".to_owned(), Value::F32(q.z)));
    es.push(("w".to_owned(), Value::F32(q.w)));
    Value::Object(es)
}

/// A compressed rotation: independently optional `yaw`, `pitch`, `roll`.
pub open spec fn is_rotation_value(r: Rotation, v: Value) -> bool {
    &&& v matches Value::Object(es)
    &&& es@.len() == 3
    &&& es@[0].0@ == "yaw"@ && is_opt_i8_value(r.yaw, es@[0].1)
    &&& es@[1].0@ == "pitch"@ && is_opt_i8_value(r.pitch, es@[1].1)
    &&& es@[2].0@ == "roll"@ && is_opt_i8_value(r.roll, es@[2].1)
}

pub fn rotation_value(r: &Rotation) -> (v: Value)
    ensures
        is_rotation_value(*r, v),
{
    let mut es: Vec<(String, Value)> = Vec::new();
    es.push(("yaw".to_owned(), opt_i8_value(&r.yaw)));
    es.push(("pitch".to_owned(), opt_i8_value(&r.pitch)));
    es.push(("roll".to_owned(), opt_i8_value(&r.roll)));
    Value::Object(es)
}

/// An absent optional rotation, or its representation.
pub open spec fn is_opt_rotation_value(o: Option<Rotation>, v: Value) -> bool {
    match o {
        Some(r) => is_rotation_value(r, v),
        None => v == Value::Null,
    }
}

pub fn opt_rotation_value(o: &Option<Rotation>) -> (v: Value)
    ensures
        is_opt_rotation_value(*o, v),
{
    match o {
        Some(r) => rotation_value(r),
        None => Value::Null,
    }
}

/// An active-actor link: `active`, then the actor id.
pub open spec fn is_active_actor_value(a: ActiveActor, v: Value) -> bool {
    &&& v matches Value::Object(es)
    &&& es@.len() == 2
    &&& es@[0].0@ == "active"@ && es@[0].1 == Value::Bool(a.active)
    &&& es@[1].0@ == "actor"@ && es@[1].1 == Value::I32(a.actor.0)
}

pub fn active_actor_value(a: &ActiveActor) -> (v: Value)
    ensures
        is_active_actor_value(*a, v),
{
    let mut es: Vec<(String, Value)> = Vec::new();
    es.push(("active".to_owned(), Value::Bool(a.active)));
    es.push(("actor".to_owned(), Value::I32(a.actor.0)));
    Value::Object(es)
}

/// Camera settings, all seven fields in declaration order.
pub open spec fn is_cam_settings_value(c: CamSettings, v: Value) -> bool {
    &&& v matches Value::Object(es)
    &&& es@.len() == 7
    &&& es@[0].0@ == "fov"@ && es@[0].1 == Value::F32(c.fov)
    &&& es@[1].0@ == "height"@ && es@[1].1 == Value::F32(c.height)
    &&& es@[2].0@ == "angle"@ && es@[2].1 == Value::F32(c.angle)
    &&& es@[3].0@ == "distance"@ && es@[3].1 == Value::F32(c.distance)
    &&& es@[4].0@ == "stiffness"@ && es@[4].1 == Value::F32(c.stiffness)
    &&& es@[5].0@ == "swivel"@ && es@[5].1 == Value::F32(c.swivel)
    &&& es@[6].0@ == "transition"@ && is_opt_f32_value(c.transition, es@[6].1)
}

pub fn cam_settings_value(c: &CamSettings) -> (v: Value)
    ensures
        is_cam_settings_value(*c, v),
{
    let mut es: Vec<(String, Value)> = Vec::new();
    es.push(("fov".to_owned(), Value::F32(c.fov)));
    es.push(("height".to_owned(), Value::F32(c.height)));
    es.push(("angle".to_owned(), Value::F32(c.angle)));
    es.push(("distance".to_owned(), Value::F32(c.distance)));
    es.push(("stiffness".to_owned(), Value::F32(c.stiffness)));
    es.push(("swivel".to_owned(), Value::F32(c.swivel)));
    es.push(("transition".to_owned(), opt_f32_value(&c.transition)));
    Value::Object(es)
}

/// Club colours, four fields in declaration order.
pub open spec fn is_club_colors_value(c: ClubColors, v: Value) -> bool {
    &&& v matches Value::Object(es)
    &&& es@.len() == 4
    &&& es@[0].0@ == "blue_flag"@ && es@[0].1 == Value::Bool(c.blue_flag)
    &&& es@[1].0@ == "blue_color"@ && es@[1].1 == Value::U8(c.blue_color)
    &&& es@[2].0@ == "orange_flag"@ && es@[2].1 == Value::Bool(c.orange_flag)
    &&& es@[3].0@ == "orange_color"@ && es@[3].1 == Value::U8(c.orange_color)
}

pub fn club_colors_value(c: &ClubColors) -> (v: Value)
    ensures
        is_club_colors_value(*c, v),
{
    let mut es: Vec<(String, Value)> = Vec::new();
    es.push(("blue_flag".to_owned(), Value::Bool(c.blue_flag)));
    es.push(("blue_color".to_owned(), Value::U8(c.blue_color)));
    es.push(("orange_flag".to_owned(), Value::Bool(c.orange_flag)));
    es.push(("orange_color".to_owned(), Value::U8(c.orange_color)));
    Value::Object(es)
}

/// Dropshot damage application.
pub open spec fn is_applied_damage_value(d: AppliedDamage, v: Value) -> bool {
    &&& v matches Value::Object(es)
    &&& es@.len() == 4
    &&& es@[0].0@ == "id"@ && es@[0].1 == Value::U8(d.id)
    &&& es@[1].0@ == "position"@ && is_vector3f_value(d.position, es@[1].1)
    &&& es@[2].0@ == "damage_index"@ && es@[2].1 == Value::I32(d.damage_index)
    &&& es@[3].0@ == "total_damage"@ && es@[3].1 == Value::I32(d.total_damage)
}

pub fn applied_damage_value(d: &AppliedDamage) -> (v: Value)
    ensures
        is_applied_damage_value(*d, v),
{
    let mut es: Vec<(String, Value)> = Vec::new();
    es.push(("id".to_owned(), Value::U8(d.id)));
    es.push(("position".to_owned(), vector3f_value(&d.position)));
    es.push(("damage_index".to_owned(), Value::I32(d.damage_index)));
    es.push(("total_damage".to_owned(), Value::I32(d.total_damage)));
    Value::Object(es)
}

/// Dropshot tile damage state.
pub open spec fn is_damage_state_value(d: DamageState, v: Value) -> bool {
    &&& v matches Value::Object(es)
    &&& es@.len() == 6
    &&& es@[0].0@ == "tile_state"@ && es@[0].1 == Value::U8(d.tile_state)
    &&& es@[1].0@ == "damaged"@ && es@[1].1 == Value::Bool(d.damaged)
    &&& es@[2].0@ == "offender"@ && es@[2].1 == Value::I32(d.offender.0)
    &&& es@[3].0@ == "ball_position"@ && is_vector3f_value(d.ball_position, es@[3].1)
    &&& es@[4].0@ == "direct_hit"@ && es@[4].1 == Value::Bool(d.direct_hit)
    &&& es@[5].0@ == "unknown1"@ && es@[5].1 == Value::Bool(d.unknown1)
}

pub fn damage_state_value(d: &DamageState) -> (v: Value)
    ensures
        is_damage_state_value(*d, v),
{
    let mut es: Vec<(String, Value)> = Vec::new();
    es.push(("tile_state".to_owned(), Value::U8(d.tile_state)));
    es.push(("damaged".to_owned(), Value::Bool(d.damaged)));
    es.push(("offender".to_owned(), Value::I32(d.offender.0)));
    es.push(("ball_position".to_owned(), vector3f_value(&d.ball_position)));
    es.push(("direct_hit".to_owned(), Value::Bool(d.direct_hit)));
    es.push(("unknown1".to_owned(), Value::Bool(d.unknown1)));
    Value::Object(es)
}

/// A demolition event.
pub open spec fn is_demolish_value(d: Demolish, v: Value) -> bool {
    &&& v matches Value::Object(es)
    &&& es@.len() == 6
    &&& es@[0].0@ == "attacker_flag"@ && es@[0].1 == Value::Bool(d.attacker_flag)
    &&& es@[1].0@ == "attacker"@ && es@[1].1 == Value::I32(d.attacker.0)
    &&& es@[2].0@ == "victim_flag"@ && es@[2].1 == Value::Bool(d.victim_flag)
    &&& es@[3].0@ == "victim"@ && es@[3].1 == Value::I32(d.victim.0)
    &&& es@[4].0@ == "attack_velocity"@ && is_vector3f_value(d.attack_velocity, es@[4].1)
    &&& es@[5].0@ == "victim_velocity"@ && is_vector3f_value(d.victim_velocity, es@[5].1)
}

pub fn demolish_value(d: &Demolish) -> (v: Value)
    ensures
        is_demolish_value(*d, v),
{
    let mut es: Vec<(String, Value)> = Vec::new();
    es.push(("attacker_flag".to_owned(), Value::Bool(d.attacker_flag)));
    es.push(("attacker".to_owned(), Value::I32(d.attacker.0)));
    es.push(("victim_flag".to_owned(), Value::Bool(d.victim_flag)));
    es.push(("victim".to_owned(), Value::I32(d.victim.0)));
    es.push(("attack_velocity".to_owned(), vector3f_value(&d.attack_velocity)));
    es.push(("victim_velocity".to_owned(), vector3f_value(&d.victim_velocity)));
    Value::Object(es)
}

/// A demolition event with full replication info.
pub open spec fn is_demolish_extended_value(d: DemolishExtended, v: Value) -> bool {
    &&& v matches Value::Object(es)
    &&& es@.len() == 8
    &&& es@[0].0@ == "attacker_pri"@ && is_active_actor_value(d.attacker_pri, es@[0].1)
    &&& es@[1].0@ == "self_demo"@ && is_active_actor_value(d.self_demo, es@[1].1)
    &&& es@[2].0@ == "self_demolish"@ && es@[2].1 == Value::Bool(d.self_demolish)
    &&& es@[3].0@ == "goal_explosion_owner"@ && is_active_actor_value(d.goal_explosion_owner, es@[3].1)
    &&& es@[4].0@ == "attacker"@ && is_active_actor_value(d.attacker, es@[4].1)
    &&& es@[5].0@ == "victim"@ && is_active_actor_value(d.victim, es@[5].1)
    &&& es@[6].0@ == "attacker_velocity"@ && is_vector3f_value(d.attacker_velocity, es@[6].1)
    &&& es@[7].0@ == "victim_velocity"@ && is_vector3f_value(d.victim_velocity, es@[7].1)
}

pub fn demolish_extended_value(d: &DemolishExtended) -> (v: Value)
    ensures
        is_demolish_extended_value(*d, v),
{
    let mut es: Vec<(String, Value)> = Vec::new();
    es.push(("attacker_pri".to_owned(), active_actor_value(&d.attacker_pri)));
    es.push(("self_demo".to_owned(), active_actor_value(&d.self_demo)));
    es.push(("self_demolish".to_owned(), Value::Bool(d.self_demolish)));
    es.push(("goal_explosion_owner".to_owned(), active_actor_value(&d.goal_explosion_owner)));
    es.push(("attacker".to_owned(), active_actor_value(&d.attacker)));
    es.push(("victim".to_owned(), active_actor_value(&d.victim)));
    es.push(("attacker_velocity".to_owned(), vector3f_value(&d.attacker_velocity)));
    es.push(("victim_velocity".to_owned(), vector3f_value(&d.victim_velocity)));
    Value::Object(es)
}

/// A demolition event with a custom effect.
pub open spec fn is_demolish_fx_value(d: DemolishFx, v: Value) -> bool {
    &&& v matches Value::Object(es)
    &&& es@.len() == 8
    &&& es@[0].0@ == "custom_demo_flag"@ && es@[0].1 == Value::Bool(d.custom_demo_flag)
    &&& es@[1].0@ == "custom_demo_id"@ && es@[1].1 == Value::I32(d.custom_demo_id)
    &&& es@[2].0@ == "attacker_flag"@ && es@[2].1 == Value::Bool(d.attacker_flag)
    &&& es@[3].0@ == "attacker"@ && es@[3].1 == Value::I32(d.attacker.0)
    &&& es@[4].0@ == "victim_flag"@ && es@[4].1 == Value::Bool(d.victim_flag)
    &&& es@[5].0@ == "victim"@ && es@[5].1 == Value::I32(d.victim.0)
    &&& es@[6].0@ == "attack_velocity"@ && is_vector3f_value(d.attack_velocity, es@[6].1)
    &&& es@[7].0@ == "victim_velocity"@ && is_vector3f_value(d.victim_velocity, es@[7].1)
}

pub fn demolish_fx_value(d: &DemolishFx) -> (v: Value)
    ensures
        is_demolish_fx_value(*d, v),
{
    let mut es: Vec<(String, Value)> = Vec::new();
    es.push(("custom_demo_flag".to_owned(), Value::Bool(d.custom_demo_flag)));
    es.push(("custom_demo_id".to_owned(), Value::I32(d.custom_demo_id)));
    es.push(("attacker_flag".to_owned(), Value::Bool(d.attacker_flag)));
    es.push(("attacker".to_owned(), Value::I32(d.attacker.0)));
    es.push(("victim_flag".to_owned(), Value::Bool(d.victim_flag)));
    es.push(("victim".to_owned(), Value::I32(d.victim.0)));
    es.push(("attack_velocity".to_owned(), vector3f_value(&d.attack_velocity)));
    es.push(("victim_velocity".to_owned(), vector3f_value(&d.victim_velocity)));
    Value::Object(es)
}

/// An explosion event.
pub open spec fn is_explosion_value(e: Explosion, v: Value) -> bool {
    &&& v matches Value::Object(es)
    &&& es@.len() == 3
    &&& es@[0].0@ == "flag"@ && es@[0].1 == Value::Bool(e.flag)
    &&& es@[1].0@ == "actor"@ && es@[1].1 == Value::I32(e.actor.0)
    &&& es@[2].0@ == "location"@ && is_vector3f_value(e.location, es@[2].1)
}

pub fn explosion_value(e: &Explosion) -> (v: Value)
    ensures
        is_explosion_value(*e, v),
{
    let mut es: Vec<(String, Value)> = Vec::new();
    es.push(("flag".to_owned(), Value::Bool(e.flag)));
    es.push(("actor".to_owned(), Value::I32(e.actor.0)));
    es.push(("location".to_owned(), vector3f_value(&e.location)));
    Value::Object(es)
}

/// An explosion with a secondary actor.
pub open spec fn is_extended_explosion_value(e: ExtendedExplosion, v: Value) -> bool {
    &&& v matches Value::Object(es)
    &&& es@.len() == 3
    &&& es@[0].0@ == "explosion"@ && is_explosion_value(e.explosion, es@[0].1)
    &&& es@[1].0@ == "unknown1"@ && es@[1].1 == Value::Bool(e.unknown1)
    &&& es@[2].0@ == "secondary_actor"@ && es@[2].1 == Value::I32(e.secondary_actor.0)
}

pub fn extended_explosion_value(e: &ExtendedExplosion) -> (v: Value)
    ensures
        is_extended_explosion_value(*e, v),
{
    let mut es: Vec<(String, Value)> = Vec::new();
    es.push(("explosion".to_owned(), explosion_value(&e.explosion)));
    es.push(("unknown1".to_owned(), Value::Bool(e.unknown1)));
    es.push(("secondary_actor".to_owned(), Value::I32(e.secondary_actor.0)));
    Value::Object(es)
}

/// A loadout: eight required fields, then the independently optional
/// fields added by later format versions, all in declaration order.
pub open spec fn is_loadout_value(l: Loadout, v: Value) -> bool {
    &&& v matches Value::Object(es)
    &&& es@.len() == 14
    &&& es@[0].0@ == "version"@ && es@[0].1 == Value::U8(l.version)
    &&& es@[1].0@ == "body"@ && es@[1].1 == Value::U32(l.body)
    &&& es@[2].0@ == "decal"@ && es@[2].1 == Value::U32(l.decal)
    &&& es@[3].0@ == "wheels"@ && es@[3].1 == Value::U32(l.wheels)
    &&& es@[4].0@ == "rocket_trail"@ && es@[4].1 == Value::U32(l.rocket_trail)
    &&& es@[5].0@ == "antenna"@ && es@[5].1 == Value::U32(l.antenna)
    &&& es@[6].0@ == "topper"@ && es@[6].1 == Value::U32(l.topper)
    &&& es@[7].0@ == "unknown1"@ && es@[7].1 == Value::U32(l.unknown1)
    &&& es@[8].0@ == "unknown2"@ && is_opt_u32_value(l.unknown2, es@[8].1)
    &&& es@[9].0@ == "engine_audio"@ && is_opt_u32_value(l.engine_audio, es@[9].1)
    &&& es@[10].0@ == "trail"@ && is_opt_u32_value(l.trail, es@[10].1)
    &&& es@[11].0@ == "goal_explosion"@ && is_opt_u32_value(l.goal_explosion, es@[11].1)
    &&& es@[12].0@ == "banner"@ && is_opt_u32_value(l.banner, es@[12].1)
    &&& es@[13].0@ == "product_id"@ && is_opt_u32_value(l.product_id, es@[13].1)
}

pub fn loadout_value(l: &Loadout) -> (v: Value)
    ensures
        is_loadout_value(*l, v),
{
    let mut es: Vec<(String, Value)> = Vec::new();
    es.push(("version".to_owned(), Value::U8(l.version)));
    es.push(("body".to_owned(), Value::U32(l.body)));
    es.push(("decal".to_owned(), Value::U32(l.decal)));
    es.push(("wheels".to_owned(), Value::U32(l.wheels)));
    es.push(("rocket_trail".to_owned(), Value::U32(l.rocket_trail)));
    es.push(("antenna".to_owned(), Value::U32(l.antenna)));
    es.push(("topper".to_owned(), Value::U32(l.topper)));
    es.push(("unknown1".to_owned(), Value::U32(l.unknown1)));
    es.push(("unknown2".to_owned(), opt_u32_value(&l.unknown2)));
    es.push(("engine_audio".to_owned(), opt_u32_value(&l.engine_audio)));
    es.push(("trail".to_owned(), opt_u32_value(&l.trail)));
    es.push(("goal_explosion".to_owned(), opt_u32_value(&l.goal_explosion)));
    es.push(("banner".to_owned(), opt_u32_value(&l.banner)));
    es.push(("product_id".to_owned(), opt_u32_value(&l.product_id)));
    Value::Object(es)
}

/// Loadouts for both teams.
pub open spec fn is_team_loadout_value(t: TeamLoadout, v: Value) -> bool {
    &&& v matches Value::Object(es)
    &&& es@.len() == 2
    &&& es@[0].0@ == "blue"@ && is_loadout_value(t.blue, es@[0].1)
    &&& es@[1].0@ == "orange"@ && is_loadout_value(t.orange, es@[1].1)
}

pub fn team_loadout_value(t: &TeamLoadout) -> (v: Value)
    ensures
        is_team_loadout_value(*t, v),
{
    let mut es: Vec<(String, Value)> = Vec::new();
    es.push(("blue".to_owned(), loadout_value(&t.blue)));
    es.push(("orange".to_owned(), loadout_value(&t.orange)));
    Value::Object(es)
}

/// A replicated stat event.
pub open spec fn is_stat_event_value(s: StatEvent, v: Value) -> bool {
    &&& v matches Value::Object(es)
    &&& es@.len() == 2
    &&& es@[0].0@ == "unknown1"@ && es@[0].1 == Value::Bool(s.unknown1)
    &&& es@[1].0@ == "object_id"@ && es@[1].1 == Value::I32(s.object_id)
}

pub fn stat_event_value(s: &StatEvent) -> (v: Value)
    ensures
        is_stat_event_value(*s, v),
{
    let mut es: Vec<(String, Value)> = Vec::new();
    es.push(("unknown1".to_owned(), Value::Bool(s.unknown1)));
    es.push(("object_id".to_owned(), Value::I32(s.object_id)));
    Value::Object(es)
}

/// A music stinger cue.
pub open spec fn is_music_stinger_value(m: MusicStinger, v: Value) -> bool {
    &&& v matches Value::Object(es)
    &&& es@.len() == 3
    &&& es@[0].0@ == "flag"@ && es@[0].1 == Value::Bool(m.flag)
    &&& es@[1].0@ == "cue"@ && es@[1].1 == Value::U32(m.cue)
    &&& es@[2].0@ == "trigger"@ && es@[2].1 == Value::U8(m.trigger)
}

pub fn music_stinger_value(m: &MusicStinger) -> (v: Value)
    ensures
        is_music_stinger_value(*m, v),
{
    let mut es: Vec<(String, Value)> = Vec::new();
    es.push(("flag".to_owned(), Value::Bool(m.flag)));
    es.push(("cue".to_owned(), Value::U32(m.cue)));
    es.push(("trigger".to_owned(), Value::U8(m.trigger)));
    Value::Object(es)
}

/// A boost pickup event.
pub open spec fn is_pickup_value(p: Pickup, v: Value) -> bool {
    &&& v matches Value::Object(es)
    &&& es@.len() == 2
    &&& es@[0].0@ == "instigator"@ && is_opt_actor_value(p.instigator, es@[0].1)
    &&& es@[1].0@ == "picked_up"@ && es@[1].1 == Value::Bool(p.picked_up)
}

pub fn pickup_value(p: &Pickup) -> (v: Value)
    ensures
        is_pickup_value(*p, v),
{
    let mut es: Vec<(String, Value)> = Vec::new();
    es.push(("instigator".to_owned(), opt_actor_value(&p.instigator)));
    es.push(("picked_up".to_owned(), Value::Bool(p.picked_up)));
    Value::Object(es)
}

/// A boost pickup event in the newer encoding.
pub open spec fn is_pickup_new_value(p: PickupNew, v: Value) -> bool {
    &&& v matches Value::Object(es)
    &&& es@.len() == 2
    &&& es@[0].0@ == "instigator"@ && is_opt_actor_value(p.instigator, es@[0].1)
    &&& es@[1].0@ == "picked_up"@ && es@[1].1 == Value::U8(p.picked_up)
}

pub fn pickup_new_value(p: &PickupNew) -> (v: Value)
    ensures
        is_pickup_new_value(*p, v),
{
    let mut es: Vec<(String, Value)> = Vec::new();
    es.push(("instigator".to_owned(), opt_actor_value(&p.instigator)));
    es.push(("picked_up".to_owned(), Value::U8(p.picked_up)));
    Value::Object(es)
}

/// Two welded actors.
pub open spec fn is_welded_value(w: Welded, v: Value) -> bool {
    &&& v matches Value::Object(es)
    &&& es@.len() == 5
    &&& es@[0].0@ == "active"@ && es@[0].1 == Value::Bool(w.active)
    &&& es@[1].0@ == "actor"@ && es@[1].1 == Value::I32(w.actor.0)
    &&& es@[2].0@ == "offset"@ && is_vector3f_value(w.offset, es@[2].1)
    &&& es@[3].0@ == "mass"@ && es@[3].1 == Value::F32(w.mass)
    &&& es@[4].0@ == "rotation"@ && is_rotation_value(w.rotation, es@[4].1)
}

pub fn welded_value(w: &Welded) -> (v: Value)
    ensures
        is_welded_value(*w, v),
{
    let mut es: Vec<(String, Value)> = Vec::new();
    es.push(("active".to_owned(), Value::Bool(w.active)));
    es.push(("actor".to_owned(), Value::I32(w.actor.0)));
    es.push(("offset".to_owned(), vector3f_value(&w.offset)));
    es.push(("mass".to_owned(), Value::F32(w.mass)));
    es.push(("rotation".to_owned(), rotation_value(&w.rotation)));
    Value::Object(es)
}

/// Team paint selections.
pub open spec fn is_team_paint_value(t: TeamPaint, v: Value) -> bool {
    &&& v matches Value::Object(es)
    &&& es@.len() == 5
    &&& es@[0].0@ == "team"@ && es@[0].1 == Value::U8(t.team)
    &&& es@[1].0@ == "primary_color"@ && es@[1].1 == Value::U8(t.primary_color)
    &&& es@[2].0@ == "accent_color"@ && es@[2].1 == Value::U8(t.accent_color)
    &&& es@[3].0@ == "primary_finish"@ && es@[3].1 == Value::U32(t.primary_finish)
    &&& es@[4].0@ == "accent_finish"@ && es@[4].1 == Value::U32(t.accent_finish)
}

pub fn team_paint_value(t: &TeamPaint) -> (v: Value)
    ensures
        is_team_paint_value(*t, v),
{
    let mut es: Vec<(String, Value)> = Vec::new();
    es.push(("team".to_owned(), Value::U8(t.team)));
    es.push(("primary_color".to_owned(), Value::U8(t.primary_color)));
    es.push(("accent_color".to_owned(), Value::U8(t.accent_color)));
    es.push(("primary_finish".to_owned(), Value::U32(t.primary_finish)));
    es.push(("accent_finish".to_owned(), Value::U32(t.accent_finish)));
    Value::Object(es)
}

/// A rigid body state.
pub open spec fn is_rigid_body_value(r: RigidBody, v: Value) -> bool {
    &&& v matches Value::Object(es)
    &&& es@.len() == 5
    &&& es@[0].0@ == "sleeping"@ && es@[0].1 == Value::Bool(r.sleeping)
    &&& es@[1].0@ == "location"@ && is_vector3f_value(r.location, es@[1].1)
    &&& es@[2].0@ == "rotation"@ && is_quaternion_value(r.rotation, es@[2].1)
    &&& es@[3].0@ == "linear_velocity"@ && is_opt_vector3f_value(r.linear_velocity, es@[3].1)
    &&& es@[4].0@ == "angular_velocity"@ && is_opt_vector3f_value(r.angular_velocity, es@[4].1)
}

pub fn rigid_body_value(r: &RigidBody) -> (v: Value)
    ensures
        is_rigid_body_value(*r, v),
{
    let mut es: Vec<(String, Value)> = Vec::new();
    es.push(("sleeping".to_owned(), Value::Bool(r.sleeping)));
    es.push(("location".to_owned(), vector3f_value(&r.location)));
    es.push(("rotation".to_owned(), quaternion_value(&r.rotation)));
    es.push(("linear_velocity".to_owned(), opt_vector3f_value(&r.linear_velocity)));
    es.push(("angular_velocity".to_owned(), opt_vector3f_value(&r.angular_velocity)));
    Value::Object(es)
}

/// A byte sequence as an array of byte-width values, in order.
pub open spec fn is_bytes_value(b: Seq<u8>, v: Value) -> bool {
    &&& v matches Value::Array(items)
    &&& items@.len() == b.len()
    &&& forall|i: int| 0 <= i < b.len() ==> items@[i] == Value::U8(b[i])
}

pub fn bytes_value(b: &Vec<u8>) -> (v: Value)
    ensures
        is_bytes_value(b@, v),
{
    let mut items: Vec<Value> = Vec::new();
    let mut i: usize = 0;
    while i < b.len()
        invariant
            i <= b@.len(),
            items@.len() == i as int,
            forall|j: int| 0 <= j < i ==> items@[j] == Value::U8(b@[j]),
        decreases b@.len() - i,
    {
        items.push(Value::U8(b[i]));
        i = i + 1;
    }
    Value::Array(items)
}

/// A PsyNet identity.
pub open spec fn is_psy_net_id_value(p: PsyNetId, v: Value) -> bool {
    &&& v matches Value::Object(es)
    &&& es@.len() == 2
    &&& es@[0].0@ == "online_id"@ && es@[0].1 == Value::U64(p.online_id)
    &&& es@[1].0@ == "unknown1"@ && is_bytes_value(p.unknown1@, es@[1].1)
}

pub fn psy_net_id_value(p: &PsyNetId) -> (v: Value)
    ensures
        is_psy_net_id_value(*p, v),
{
    let mut es: Vec<(String, Value)> = Vec::new();
    es.push(("online_id".to_owned(), Value::U64(p.online_id)));
    es.push(("unknown1".to_owned(), bytes_value(&p.unknown1)));
    Value::Object(es)
}

/// A Switch identity.
pub open spec fn is_switch_id_value(s: SwitchId, v: Value) -> bool {
    &&& v matches Value::Object(es)
    &&& es@.len() == 2
    &&& es@[0].0@ == "online_id"@ && es@[0].1 == Value::U64(s.online_id)
    &&& es@[1].0@ == "unknown1"@ && is_bytes_value(s.unknown1@, es@[1].1)
}

pub fn switch_id_value(s: &SwitchId) -> (v: Value)
    ensures
        is_switch_id_value(*s, v),
{
    let mut es: Vec<(String, Value)> = Vec::new();
    es.push(("online_id".to_owned(), Value::U64(s.online_id)));
    es.push(("unknown1".to_owned(), bytes_value(&s.unknown1)));
    Value::Object(es)
}

/// A PlayStation identity.
pub open spec fn is_ps4_id_value(p: Ps4Id, v: Value) -> bool {
    &&& v matches Value::Object(es)
    &&& es@.len() == 3
    &&& es@[0].0@ == "online_id"@ && es@[0].1 == Value::U64(p.online_id)
    &&& es@[1].0@ == "name"@ && es@[1].1 == Value::Str(p.name)
    &&& es@[2].0@ == "unknown1"@ && is_bytes_value(p.unknown1@, es@[2].1)
}

pub fn ps4_id_value(p: &Ps4Id) -> (v: Value)
    ensures
        is_ps4_id_value(*p, v),
{
    let mut es: Vec<(String, Value)> = Vec::new();
    es.push(("online_id".to_owned(), Value::U64(p.online_id)));
    es.push(("name".to_owned(), Value::Str(p.name.clone())));
    es.push(("unknown1".to_owned(), bytes_value(&p.unknown1)));
    Value::Object(es)
}

/// The tag key of each per-platform identity case.
pub open spec fn remote_id_tag(r: RemoteId) -> Seq<char> {
    match r {
        RemoteId::PlayStation(_) => "PlayStation"@,
        RemoteId::PsyNet(_) => "PsyNet"@,
        RemoteId::SplitScreen(_) => "SplitScreen"@,
        RemoteId::Steam(_) => "Steam"@,
        RemoteId::Switch(_) => "Switch"@,
        RemoteId::Xbox(_) => "Xbox"@,
        RemoteId::QQ(_) => "QQ"@,
        RemoteId::Epic(_) => "Epic"@,
    }
}

/// The representation of each per-platform identity payload.
pub open spec fn is_remote_id_payload(r: RemoteId, v: Value) -> bool {
    match r {
        RemoteId::PlayStation(p) => is_ps4_id_value(p, v),
        RemoteId::PsyNet(p) => is_psy_net_id_value(p, v),
        RemoteId::SplitScreen(x) => v == Value::U32(x),
        RemoteId::Steam(x) => v == Value::U64(x),
        RemoteId::Switch(s) => is_switch_id_value(s, v),
        RemoteId::Xbox(x) => v == Value::U64(x),
        RemoteId::QQ(x) => v == Value::U64(x),
        RemoteId::Epic(s) => v == Value::Str(s),
    }
}

/// A per-platform identity: an object populating exactly the one tag key
/// of its case, the nested exactly-one-case rule.
pub open spec fn is_remote_id_value(r: RemoteId, v: Value) -> bool {
    &&& v matches Value::Object(es)
    &&& es@.len() == 1
    &&& es@[0].0@ == remote_id_tag(r)
    &&& is_remote_id_payload(r, es@[0].1)
}

pub fn remote_id_value(r: &RemoteId) -> (v: Value)
    ensures
        is_remote_id_value(*r, v),
        is_single_key_object(remote_id_tag(*r), v),
{
    let (tag, payload): (String, Value) = match r {
        RemoteId::PlayStation(p) => ("PlayStation".to_owned(), ps4_id_value(p)),
        RemoteId::PsyNet(p) => ("PsyNet".to_owned(), psy_net_id_value(p)),
        RemoteId::SplitScreen(x) => ("SplitScreen".to_owned(), Value::U32(*x)),
        RemoteId::Steam(x) => ("Steam".to_owned(), Value::U64(*x)),
        RemoteId::Switch(s) => ("Switch".to_owned(), switch_id_value(s)),
        RemoteId::Xbox(x) => ("Xbox".to_owned(), Value::U64(*x)),
        RemoteId::QQ(x) => ("QQ".to_owned(), Value::U64(*x)),
        RemoteId::Epic(s) => ("Epic".to_owned(), Value::Str(s.clone())),
    };
    let mut es: Vec<(String, Value)> = Vec::new();
    es.push((tag, payload));
    Value::Object(es)
}

/// A platform-independent identity record.
pub open spec fn is_unique_id_value(u: UniqueId, v: Value) -> bool {
    &&& v matches Value::Object(es)
    &&& es@.len() == 3
    &&& es@[0].0@ == "system_id"@ && es@[0].1 == Value::U8(u.system_id)
    &&& es@[1].0@ == "remote_id"@ && is_remote_id_value(u.remote_id, es@[1].1)
    &&& es@[2].0@ == "local_id"@ && es@[2].1 == Value::U8(u.local_id)
}

pub fn unique_id_value(u: &UniqueId) -> (v: Value)
    ensures
        is_unique_id_value(*u, v),
{
    let mut es: Vec<(String, Value)> = Vec::new();
    es.push(("system_id".to_owned(), Value::U8(u.system_id)));
    es.push(("remote_id".to_owned(), remote_id_value(&u.remote_id)));
    es.push(("local_id".to_owned(), Value::U8(u.local_id)));
    Value::Object(es)
}

/// An absent optional identity, or its representation.
pub open spec fn is_opt_unique_id_value(o: Option<Box<UniqueId>>, v: Value) -> bool {
    match o {
        Some(u) => is_unique_id_value(*u, v),
        None => v == Value::Null,
    }
}

pub fn opt_unique_id_value(o: &Option<Box<UniqueId>>) -> (v: Value)
    ensures
        is_opt_unique_id_value(*o, v),
{
    match o {
        Some(u) => unique_id_value(u),
        None => Value::Null,
    }
}

/// A private-match reservation.
pub open spec fn is_reservation_value(r: Reservation, v: Value) -> bool {
    &&& v matches Value::Object(es)
    &&& es@.len() == 6
    &&& es@[0].0@ == "number"@ && es@[0].1 == Value::U32(r.number)
    &&& es@[1].0@ == "unique_id"@ && is_unique_id_value(r.unique_id, es@[1].1)
    &&& es@[2].0@ == "name"@ && is_opt_str_value(r.name, es@[2].1)
    &&& es@[3].0@ == "unknown1"@ && es@[3].1 == Value::Bool(r.unknown1)
    &&& es@[4].0@ == "unknown2"@ && es@[4].1 == Value::Bool(r.unknown2)
    &&& es@[5].0@ == "unknown3"@ && is_opt_u8_value(r.unknown3, es@[5].1)
}

pub fn reservation_value(r: &Reservation) -> (v: Value)
    ensures
        is_reservation_value(*r, v),
{
    let mut es: Vec<(String, Value)> = Vec::new();
    es.push(("number".to_owned(), Value::U32(r.number)));
    es.push(("unique_id".to_owned(), unique_id_value(&r.unique_id)));
    es.push(("name".to_owned(), opt_str_value(&r.name)));
    es.push(("unknown1".to_owned(), Value::Bool(r.unknown1)));
    es.push(("unknown2".to_owned(), Value::Bool(r.unknown2)));
    es.push(("unknown3".to_owned(), opt_u8_value(&r.unknown3)));
    Value::Object(es)
}

/// Private match settings.
pub open spec fn is_private_match_value(p: PrivateMatchSettings, v: Value) -> bool {
    &&& v matches Value::Object(es)
    &&& es@.len() == 6
    &&& es@[0].0@ == "mutators"@ && es@[0].1 == Value::Str(p.mutators)
    &&& es@[1].0@ == "joinable_by"@ && es@[1].1 == Value::U32(p.joinable_by)
    &&& es@[2].0@ == "max_players"@ && es@[2].1 == Value::U32(p.max_players)
    &&& es@[3].0@ == "game_name"@ && es@[3].1 == Value::Str(p.game_name)
    &&& es@[4].0@ == "password"@ && es@[4].1 == Value::Str(p.password)
    &&& es@[5].0@ == "flag"@ && es@[5].1 == Value::Bool(p.flag)
}

pub fn private_match_value(p: &PrivateMatchSettings) -> (v: Value)
    ensures
        is_private_match_value(*p, v),
{
    let mut es: Vec<(String, Value)> = Vec::new();
    es.push(("mutators".to_owned(), Value::Str(p.mutators.clone())));
    es.push(("joinable_by".to_owned(), Value::U32(p.joinable_by)));
    es.push(("max_players".to_owned(), Value::U32(p.max_players)));
    es.push(("game_name".to_owned(), Value::Str(p.game_name.clone())));
    es.push(("password".to_owned(), Value::Str(p.password.clone())));
    es.push(("flag".to_owned(), Value::Bool(p.flag)));
    Value::Object(es)
}

/// The tag of each product-value case; the unit cases `NoColor` and
/// `Absent` are represented by the tag text itself.
pub open spec fn product_value_tag(p: ProductValue) -> Seq<char> {
    match p {
        ProductValue::NoColor => "NoColor"@,
        ProductValue::Absent => "Absent"@,
        ProductValue::OldColor(_) => "OldColor"@,
        ProductValue::NewColor(_) => "NewColor"@,
        ProductValue::OldPaint(_) => "OldPaint"@,
        ProductValue::NewPaint(_) => "NewPaint"@,
        ProductValue::Title(_) => "Title"@,
        ProductValue::SpecialEdition(_) => "SpecialEdition"@,
        ProductValue::OldTeamEdition(_) => "OldTeamEdition"@,
        ProductValue::NewTeamEdition(_) => "NewTeamEdition"@,
    }
}

/// A product value: the unit cases are bare tag strings, every payload
/// case populates exactly its one tag key — the nested exactly-one-case
/// rule again.
pub open spec fn is_product_value_value(p: ProductValue, v: Value) -> bool {
    match p {
        ProductValue::NoColor => v matches Value::Str(s) && s@ == "NoColor"@,
        ProductValue::Absent => v matches Value::Str(s) && s@ == "Absent"@,
        ProductValue::OldColor(x) => is_tagged_value("OldColor"@, Value::U32(x), v),
        ProductValue::NewColor(x) => is_tagged_value("NewColor"@, Value::U32(x), v),
        ProductValue::OldPaint(x) => is_tagged_value("OldPaint"@, Value::U32(x), v),
        ProductValue::NewPaint(x) => is_tagged_value("NewPaint"@, Value::U32(x), v),
        ProductValue::Title(s) => is_tagged_value("Title"@, Value::Str(s), v),
        ProductValue::SpecialEdition(x) => is_tagged_value("SpecialEdition"@, Value::U32(x), v),
        ProductValue::OldTeamEdition(x) => is_tagged_value("OldTeamEdition"@, Value::U32(x), v),
        ProductValue::NewTeamEdition(x) => is_tagged_value("NewTeamEdition"@, Value::U32(x), v),
    }
}

pub fn product_value_value(p: &ProductValue) -> (v: Value)
    ensures
        is_product_value_value(*p, v),
{
    let (tag, payload): (String, Option<Value>) = match p {
        ProductValue::NoColor => ("NoColor".to_owned(), None),
        ProductValue::Absent => ("Absent".to_owned(), None),
        ProductValue::OldColor(x) => ("OldColor".to_owned(), Some(Value::U32(*x))),
        ProductValue::NewColor(x) => ("NewColor".to_owned(), Some(Value::U32(*x))),
        ProductValue::OldPaint(x) => ("OldPaint".to_owned(), Some(Value::U32(*x))),
        ProductValue::NewPaint(x) => ("NewPaint".to_owned(), Some(Value::U32(*x))),
        ProductValue::Title(s) => ("Title".to_owned(), Some(Value::Str(s.clone()))),
        ProductValue::SpecialEdition(x) => ("SpecialEdition".to_owned(), Some(Value::U32(*x))),
        ProductValue::OldTeamEdition(x) => ("OldTeamEdition".to_owned(), Some(Value::U32(*x))),
        ProductValue::NewTeamEdition(x) => ("NewTeamEdition".to_owned(), Some(Value::U32(*x))),
    };
    match payload {
        None => Value::Str(tag),
        Some(pl) => {
            let mut es: Vec<(String, Value)> = Vec::new();
            es.push((tag, pl));
            Value::Object(es)
        },
    }
}

/// One customisation product.
pub open spec fn is_product_value(p: Product, v: Value) -> bool {
    &&& v matches Value::Object(es)
    &&& es@.len() == 3
    &&& es@[0].0@ == "unknown"@ && es@[0].1 == Value::Bool(p.unknown)
    &&& es@[1].0@ == "object_ind"@ && es@[1].1 == Value::I32(p.object_ind.0)
    &&& es@[2].0@ == "value"@ && is_product_value_value(p.value, es@[2].1)
}

pub fn product_value_of(p: &Product) -> (v: Value)
    ensures
        is_product_value(*p, v),
{
    let mut es: Vec<(String, Value)> = Vec::new();
    es.push(("unknown".to_owned(), Value::Bool(p.unknown)));
    es.push(("object_ind".to_owned(), Value::I32(p.object_ind.0)));
    es.push(("value".to_owned(), product_value_value(&p.value)));
    Value::Object(es)
}

/// One player's product list, in order.
pub open spec fn is_product_list_value(ps: Seq<Product>, v: Value) -> bool {
    &&& v matches Value::Array(items)
    &&& items@.len() == ps.len()
    &&& forall|i: int| 0 <= i < ps.len() ==> is_product_value(ps[i], #[trigger] items@[i])
}

pub fn product_list_value(ps: &Vec<Product>) -> (v: Value)
    ensures
        is_product_list_value(ps@, v),
{
    let mut items: Vec<Value> = Vec::new();
    let mut i: usize = 0;
    while i < ps.len()
        invariant
            i <= ps@.len(),
            items@.len() == i as int,
            forall|j: int| 0 <= j < i ==> is_product_value(ps@[j], #[trigger] items@[j]),
        decreases ps@.len() - i,
    {
        items.push(product_value_of(&ps[i]));
        i = i + 1;
    }
    Value::Array(items)
}

/// Per-player product lists, in order.
pub open spec fn is_product_lists_value(ps: Seq<Vec<Product>>, v: Value) -> bool {
    &&& v matches Value::Array(items)
    &&& items@.len() == ps.len()
    &&& forall|i: int| 0 <= i < ps.len() ==> is_product_list_value(ps[i]@, #[trigger] items@[i])
}

pub fn product_lists_value(ps: &Vec<Vec<Product>>) -> (v: Value)
    ensures
        is_product_lists_value(ps@, v),
{
    let mut items: Vec<Value> = Vec::new();
    let mut i: usize = 0;
    while i < ps.len()
        invariant
            i <= ps@.len(),
            items@.len() == i as int,
            forall|j: int| 0 <= j < i ==> is_product_list_value(ps@[j]@, #[trigger] items@[j]),
        decreases ps@.len() - i,
    {
        items.push(product_list_value(&ps[i]));
        i = i + 1;
    }
    Value::Array(items)
}

/// Online loadouts for both teams.
pub open spec fn is_loadouts_online_value(l: LoadoutsOnline, v: Value) -> bool {
    &&& v matches Value::Object(es)
    &&& es@.len() == 4
    &&& es@[0].0@ == "blue"@ && is_product_lists_value(l.blue@, es@[0].1)
    &&& es@[1].0@ == "orange"@ && is_product_lists_value(l.orange@, es@[1].1)
    &&& es@[2].0@ == "unknown1"@ && es@[2].1 == Value::Bool(l.unknown1)
    &&& es@[3].0@ == "unknown2"@ && es@[3].1 == Value::Bool(l.unknown2)
}

pub fn loadouts_online_value(l: &LoadoutsOnline) -> (v: Value)
    ensures
        is_loadouts_online_value(*l, v),
{
    let mut es: Vec<(String, Value)> = Vec::new();
    es.push(("blue".to_owned(), product_lists_value(&l.blue)));
    es.push(("orange".to_owned(), product_lists_value(&l.orange)));
    es.push(("unknown1".to_owned(), Value::Bool(l.unknown1)));
    es.push(("unknown2".to_owned(), Value::Bool(l.unknown2)));
    Value::Object(es)
}

/// A replicated stat title.
pub open spec fn is_rep_stat_title_value(r: RepStatTitle, v: Value) -> bool {
    &&& v matches Value::Object(es)
    &&& es@.len() == 5
    &&& es@[0].0@ == "unknown"@ && es@[0].1 == Value::Bool(r.unknown)
    &&& es@[1].0@ == "name"@ && es@[1].1 == Value::Str(r.name)
    &&& es@[2].0@ == "unknown2"@ && es@[2].1 == Value::Bool(r.unknown2)
    &&& es@[3].0@ == "index"@ && es@[3].1 == Value::U32(r.index)
    &&& es@[4].0@ == "value"@ && es@[4].1 == Value::U32(r.value)
}

pub fn rep_stat_title_value(r: &RepStatTitle) -> (v: Value)
    ensures
        is_rep_stat_title_value(*r, v),
{
    let mut es: Vec<(String, Value)> = Vec::new();
    es.push(("unknown".to_owned(), Value::Bool(r.unknown)));
    es.push(("name".to_owned(), Value::Str(r.name.clone())));
    es.push(("unknown2".to_owned(), Value::Bool(r.unknown2)));
    es.push(("index".to_owned(), Value::U32(r.index)));
    es.push(("value".to_owned(), Value::U32(r.value)));
    Value::Object(es)
}

/// Pickup information in the newest encoding.
pub open spec fn is_pickup_info_value(p: PickupInfo, v: Value) -> bool {
    &&& v matches Value::Object(es)
    &&& es@.len() == 5
    &&& es@[0].0@ == "active"@ && es@[0].1 == Value::Bool(p.active)
    &&& es@[1].0@ == "actor"@ && es@[1].1 == Value::I32(p.actor.0)
    &&& es@[2].0@ == "items_are_preview"@ && es@[2].1 == Value::Bool(p.items_are_preview)
    &&& es@[3].0@ == "unknown"@ && es@[3].1 == Value::Bool(p.unknown)
    &&& es@[4].0@ == "unknown2"@ && es@[4].1 == Value::Bool(p.unknown2)
}

pub fn pickup_info_value(p: &PickupInfo) -> (v: Value)
    ensures
        is_pickup_info_value(*p, v),
{
    let mut es: Vec<(String, Value)> = Vec::new();
    es.push(("active".to_owned(), Value::Bool(p.active)));
    es.push(("actor".to_owned(), Value::I32(p.actor.0)));
    es.push(("items_are_preview".to_owned(), Value::Bool(p.items_are_preview)));
    es.push(("unknown".to_owned(), Value::Bool(p.unknown)));
    es.push(("unknown2".to_owned(), Value::Bool(p.unknown2)));
    Value::Object(es)
}

/// An impulse event.
pub open spec fn is_impulse_value(x: Impulse, v: Value) -> bool {
    &&& v matches Value::Object(es)
    &&& es@.len() == 2
    &&& es@[0].0@ == "compressed_rotation"@ && es@[0].1 == Value::I32(x.compressed_rotation)
    &&& es@[1].0@ == "speed"@ && es@[1].1 == Value::F32(x.speed)
}

pub fn impulse_value(x: &Impulse) -> (v: Value)
    ensures
        is_impulse_value(*x, v),
{
    let mut es: Vec<(String, Value)> = Vec::new();
    es.push(("compressed_rotation".to_owned(), Value::I32(x.compressed_rotation)));
    es.push(("speed".to_owned(), Value::F32(x.speed)));
    Value::Object(es)
}

/// Boost amount replication.
pub open spec fn is_replicated_boost_value(b: crate::attributes::ReplicatedBoost, v: Value) -> bool {
    &&& v matches Value::Object(es)
    &&& es@.len() == 4
    &&& es@[0].0@ == "grant_count"@ && es@[0].1 == Value::U8(b.grant_count)
    &&& es@[1].0@ == "boost_amount"@ && es@[1].1 == Value::U8(b.boost_amount)
    &&& es@[2].0@ == "unused1"@ && es@[2].1 == Value::U8(b.unused1)
    &&& es@[3].0@ == "unused2"@ && es@[3].1 == Value::U8(b.unused2)
}

pub fn replicated_boost_value(b: &crate::attributes::ReplicatedBoost) -> (v: Value)
    ensures
        is_replicated_boost_value(*b, v),
{
    let mut es: Vec<(String, Value)> = Vec::new();
    es.push(("grant_count".to_owned(), Value::U8(b.grant_count)));
    es.push(("boost_amount".to_owned(), Value::U8(b.boost_amount)));
    es.push(("unused1".to_owned(), Value::U8(b.unused1)));
    es.push(("unused2".to_owned(), Value::U8(b.unused2)));
    Value::Object(es)
}

/// A club logo selection.
pub open spec fn is_logo_data_value(l: LogoData, v: Value) -> bool {
    &&& v matches Value::Object(es)
    &&& es@.len() == 2
    &&& es@[0].0@ == "logo_id"@ && es@[0].1 == Value::U32(l.logo_id)
    &&& es@[1].0@ == "swap_colors"@ && es@[1].1 == Value::Bool(l.swap_colors)
}

pub fn logo_data_value(l: &LogoData) -> (v: Value)
    ensures
        is_logo_data_value(*l, v),
{
    let mut es: Vec<(String, Value)> = Vec::new();
    es.push(("logo_id".to_owned(), Value::U32(l.logo_id)));
    es.push(("swap_colors".to_owned(), Value::Bool(l.swap_colors)));
    Value::Object(es)
}

/// A two-element tuple payload, as an array in order.
pub open spec fn is_pair_value(a: Value, b: Value, v: Value) -> bool {
    &&& v matches Value::Array(items)
    &&& items@.len() == 2
    &&& items@[0] == a
    &&& items@[1] == b
}

fn pair_value(a: Value, b: Value) -> (v: Value)
    ensures
        is_pair_value(a, b, v),
{
    let mut items: Vec<Value> = Vec::new();
    items.push(a);
    items.push(b);
    Value::Array(items)
}

/// The eight-element title tuple payload, as an array in order.
pub open spec fn is_title_value(
    a: bool, b: bool, c: u32, d: u32, e: u32, f: u32, g: u32, h: bool, v: Value,
) -> bool {
    &&& v matches Value::Array(items)
    &&& items@.len() == 8
    &&& items@[0] == Value::Bool(a)
    &&& items@[1] == Value::Bool(b)
    &&& items@[2] == Value::U32(c)
    &&& items@[3] == Value::U32(d)
    &&& items@[4] == Value::U32(e)
    &&& items@[5] == Value::U32(f)
    &&& items@[6] == Value::U32(g)
    &&& items@[7] == Value::Bool(h)
}

fn title_value(a: bool, b: bool, c: u32, d: u32, e: u32, f: u32, g: u32, h: bool) -> (v: Value)
    ensures
        is_title_value(a, b, c, d, e, f, g, h, v),
{
    let mut items: Vec<Value> = Vec::new();
    items.push(Value::Bool(a));
    items.push(Value::Bool(b));
    items.push(Value::U32(c));
    items.push(Value::U32(d));
    items.push(Value::U32(e));
    items.push(Value::U32(f));
    items.push(Value::U32(g));
    items.push(Value::Bool(h));
    Value::Array(items)
}

/// The tag key populated by each attribute case.
pub open spec fn attr_tag(a: Attribute) -> Seq<char> {
    match a {
        Attribute::Boolean(_) => "Boolean"@,
        Attribute::Byte(_) => "Byte"@,
        Attribute::AppliedDamage(_) => "AppliedDamage"@,
        Attribute::DamageState(_) => "DamageState"@,
        Attribute::CamSettings(_) => "CamSettings"@,
        Attribute::ClubColors(_) => "ClubColors"@,
        Attribute::Demolish(_) => "Demolish"@,
        Attribute::DemolishExtended(_) => "DemolishExtended"@,
        Attribute::DemolishFx(_) => "DemolishFx"@,
        Attribute::Enum(_) => "Enum"@,
        Attribute::Explosion(_) => "Explosion"@,
        Attribute::ExtendedExplosion(_) => "ExtendedExplosion"@,
        Attribute::FlaggedByte(_, _) => "FlaggedByte"@,
        Attribute::ActiveActor(_) => "ActiveActor"@,
        Attribute::Float(_) => "Float"@,
        Attribute::GameMode(_, _) => "GameMode"@,
        Attribute::Int(_) => "Int"@,
        Attribute::Int64(_) => "Int64"@,
        Attribute::Loadout(_) => "Loadout"@,
        Attribute::TeamLoadout(_) => "TeamLoadout"@,
        Attribute::Location(_) => "Location"@,
        Attribute::MusicStinger(_) => "MusicStinger"@,
        Attribute::PlayerHistoryKey(_) => "PlayerHistoryKey"@,
        Attribute::Pickup(_) => "Pickup"@,
        Attribute::PickupNew(_) => "PickupNew"@,
        Attribute::QWord(_) => "QWord"@,
        Attribute::Welded(_) => "Welded"@,
        Attribute::Title(_, _, _, _, _, _, _, _) => "Title"@,
        Attribute::TeamPaint(_) => "TeamPaint"@,
        Attribute::RigidBody(_) => "RigidBody"@,
        Attribute::String(_) => "String"@,
        Attribute::UniqueId(_) => "UniqueId"@,
        Attribute::Reservation(_) => "Reservation"@,
        Attribute::PartyLeader(_) => "PartyLeader"@,
        Attribute::PrivateMatch(_) => "PrivateMatch"@,
        Attribute::LoadoutOnline(_) => "LoadoutOnline"@,
        Attribute::LoadoutsOnline(_) => "LoadoutsOnline"@,
        Attribute::StatEvent(_) => "StatEvent"@,
        Attribute::Rotation(_) => "Rotation"@,
        Attribute::RepStatTitle(_) => "RepStatTitle"@,
        Attribute::PickupInfo(_) => "PickupInfo"@,
        Attribute::Impulse(_) => "Impulse"@,
        Attribute::ReplicatedBoost(_) => "ReplicatedBoost"@,
        Attribute::LogoData(_) => "LogoData"@,
    }
}

/// The representation of each attribute case's payload.
pub open spec fn is_attr_payload(a: Attribute, v: Value) -> bool {
    match a {
        Attribute::Boolean(b) => v == Value::Bool(b),
        Attribute::Byte(x) => v == Value::U8(x),
        Attribute::AppliedDamage(d) => is_applied_damage_value(d, v),
        Attribute::DamageState(d) => is_damage_state_value(d, v),
        Attribute::CamSettings(c) => is_cam_settings_value(*c, v),
        Attribute::ClubColors(c) => is_club_colors_value(c, v),
        Attribute::Demolish(d) => is_demolish_value(*d, v),
        Attribute::DemolishExtended(d) => is_demolish_extended_value(*d, v),
        Attribute::DemolishFx(d) => is_demolish_fx_value(*d, v),
        Attribute::Enum(x) => v == Value::U16(x),
        Attribute::Explosion(e) => is_explosion_value(e, v),
        Attribute::ExtendedExplosion(e) => is_extended_explosion_value(e, v),
        Attribute::FlaggedByte(f, x) => is_pair_value(Value::Bool(f), Value::U8(x), v),
        Attribute::ActiveActor(a) => is_active_actor_value(a, v),
        Attribute::Float(x) => v == Value::F32(x),
        Attribute::GameMode(m, x) => is_pair_value(Value::U8(m), Value::U8(x), v),
        Attribute::Int(x) => v == Value::I32(x),
        Attribute::Int64(x) => v == Value::I64(x),
        Attribute::Loadout(l) => is_loadout_value(*l, v),
        Attribute::TeamLoadout(t) => is_team_loadout_value(*t, v),
        Attribute::Location(x) => is_vector3f_value(x, v),
        Attribute::MusicStinger(m) => is_music_stinger_value(m, v),
        Attribute::PlayerHistoryKey(x) => v == Value::U16(x),
        Attribute::Pickup(p) => is_pickup_value(p, v),
        Attribute::PickupNew(p) => is_pickup_new_value(p, v),
        Attribute::QWord(x) => v == Value::U64(x),
        Attribute::Welded(w) => is_welded_value(w, v),
        Attribute::Title(a, b, c, d, e, f, g, h) => is_title_value(a, b, c, d, e, f, g, h, v),
        Attribute::TeamPaint(t) => is_team_paint_value(t, v),
        Attribute::RigidBody(r) => is_rigid_body_value(r, v),
        Attribute::String(s) => v == Value::Str(s),
        Attribute::UniqueId(u) => is_unique_id_value(*u, v),
        Attribute::Reservation(r) => is_reservation_value(*r, v),
        Attribute::PartyLeader(o) => is_opt_unique_id_value(o, v),
        Attribute::PrivateMatch(p) => is_private_match_value(*p, v),
        Attribute::LoadoutOnline(ps) => is_product_lists_value(ps@, v),
        Attribute::LoadoutsOnline(l) => is_loadouts_online_value(l, v),
        Attribute::StatEvent(s) => is_stat_event_value(s, v),
        Attribute::Rotation(r) => is_rotation_value(r, v),
        Attribute::RepStatTitle(r) => is_rep_stat_title_value(r, v),
        Attribute::PickupInfo(p) => is_pickup_info_value(p, v),
        Attribute::Impulse(x) => is_impulse_value(x, v),
        Attribute::ReplicatedBoost(b) => is_replicated_boost_value(b, v),
        Attribute::LogoData(l) => is_logo_data_value(l, v),
    }
}

/// An attribute update payload: an object populating exactly the one tag
/// key of its case, carrying that case's payload representation.
pub open spec fn is_attribute_value(a: Attribute, v: Value) -> bool {
    &&& v matches Value::Object(es)
    &&& es@.len() == 1
    &&& es@[0].0@ == attr_tag(a)
    &&& is_attr_payload(a, es@[0].1)
}

/// Converts one attribute into its boundary value: a one-entry object whose
/// single key is the case's tag — no other tag key is ever present, so
/// "exactly one populated" is distinguishable from "present but empty".
pub fn attribute_value(a: &Attribute) -> (v: Value)
    ensures
        is_attribute_value(*a, v),
        is_single_key_object(attr_tag(*a), v),
{
    let (tag, payload): (String, Value) = match a {
        Attribute::Boolean(b) => ("Boolean".to_owned(), Value::Bool(*b)),
        Attribute::Byte(x) => ("Byte".to_owned(), Value::U8(*x)),
        Attribute::AppliedDamage(d) => ("AppliedDamage".to_owned(), applied_damage_value(d)),
        Attribute::DamageState(d) => ("DamageState".to_owned(), damage_state_value(d)),
        Attribute::CamSettings(c) => ("CamSettings".to_owned(), cam_settings_value(&**c)),
        Attribute::ClubColors(c) => ("ClubColors".to_owned(), club_colors_value(c)),
        Attribute::Demolish(d) => ("Demolish".to_owned(), demolish_value(&**d)),
        Attribute::DemolishExtended(d) => (
            "DemolishExtended".to_owned(),
            demolish_extended_value(&**d),
        ),
        Attribute::DemolishFx(d) => ("DemolishFx".to_owned(), demolish_fx_value(&**d)),
        Attribute::Enum(x) => ("Enum".to_owned(), Value::U16(*x)),
        Attribute::Explosion(e) => ("Explosion".to_owned(), explosion_value(e)),
        Attribute::ExtendedExplosion(e) => (
            "ExtendedExplosion".to_owned(),
            extended_explosion_value(e),
        ),
        Attribute::FlaggedByte(f, x) => (
            "FlaggedByte".to_owned(),
            pair_value(Value::Bool(*f), Value::U8(*x)),
        ),
        Attribute::ActiveActor(aa) => ("ActiveActor".to_owned(), active_actor_value(aa)),
        Attribute::Float(x) => ("Float".to_owned(), Value::F32(*x)),
        Attribute::GameMode(m, x) => (
            "GameMode".to_owned(),
            pair_value(Value::U8(*m), Value::U8(*x)),
        ),
        Attribute::Int(x) => ("Int".to_owned(), Value::I32(*x)),
        Attribute::Int64(x) => ("Int64".to_owned(), Value::I64(*x)),
        Attribute::Loadout(l) => ("Loadout".to_owned(), loadout_value(&**l)),
        Attribute::TeamLoadout(t) => ("TeamLoadout".to_owned(), team_loadout_value(&**t)),
        Attribute::Location(x) => ("Location".to_owned(), vector3f_value(x)),
        Attribute::MusicStinger(m) => ("MusicStinger".to_owned(), music_stinger_value(m)),
        Attribute::PlayerHistoryKey(x) => ("PlayerHistoryKey".to_owned(), Value::U16(*x)),
        Attribute::Pickup(p) => ("Pickup".to_owned(), pickup_value(p)),
        Attribute::PickupNew(p) => ("PickupNew".to_owned(), pickup_new_value(p)),
        Attribute::QWord(x) => ("QWord".to_owned(), Value::U64(*x)),
        Attribute::Welded(w) => ("Welded".to_owned(), welded_value(w)),
        Attribute::Title(a, b, c, d, e, f, g, h) => (
            "Title".to_owned(),
            title_value(*a, *b, *c, *d, *e, *f, *g, *h),
        ),
        Attribute::TeamPaint(t) => ("TeamPaint".to_owned(), team_paint_value(t)),
        Attribute::RigidBody(r) => ("RigidBody".to_owned(), rigid_body_value(r)),
        Attribute::String(s) => ("String".to_owned(), Value::Str(s.clone())),
        Attribute::UniqueId(u) => ("UniqueId".to_owned(), unique_id_value(&**u)),
        Attribute::Reservation(r) => ("Reservation".to_owned(), reservation_value(&**r)),
        Attribute::PartyLeader(o) => ("PartyLeader".to_owned(), opt_unique_id_value(o)),
        Attribute::PrivateMatch(p) => ("PrivateMatch".to_owned(), private_match_value(&**p)),
        Attribute::LoadoutOnline(ps) => ("LoadoutOnline".to_owned(), product_lists_value(ps)),
        Attribute::LoadoutsOnline(l) => ("LoadoutsOnline".to_owned(), loadouts_online_value(l)),
        Attribute::StatEvent(s) => ("StatEvent".to_owned(), stat_event_value(s)),
        Attribute::Rotation(r) => ("Rotation".to_owned(), rotation_value(r)),
        Attribute::RepStatTitle(r) => ("RepStatTitle".to_owned(), rep_stat_title_value(r)),
        Attribute::PickupInfo(p) => ("PickupInfo".to_owned(), pickup_info_value(p)),
        Attribute::Impulse(x) => ("Impulse".to_owned(), impulse_value(x)),
        Attribute::ReplicatedBoost(b) => ("ReplicatedBoost".to_owned(), replicated_boost_value(b)),
        Attribute::LogoData(l) => ("LogoData".to_owned(), logo_data_value(l)),
    };
    let mut es: Vec<(String, Value)> = Vec::new();
    es.push((tag, payload));
    Value::Object(es)
}

/// True when the key text equals the given name.
fn key_is(k: &String, name: &str) -> (r: bool)
    ensures
        r == (k@ == name@),
{
    *k == name.to_owned()
}

/// Re-parses a loadout from its boundary value. Returns the loadout whose
/// representation the value is, if there is one: together with
/// [`loadout_value`] this is the lossless serialise/re-parse round trip.
pub fn decode_loadout(v: &Value) -> (r: Option<Loadout>)
    ensures
        (r matches Some(l) ==> is_loadout_value(l, *v)),
        forall|l: Loadout| is_loadout_value(l, *v) ==> r == Some(l),
{
    let es: &Vec<(String, Value)> = match v {
        Value::Object(es) => es,
        _ => {
            return None;
        },
    };
    if es.len() != 14 {
        return None;
    }
    if !key_is(&es[0].0, "version") || !key_is(&es[1].0, "body") || !key_is(&es[2].0, "decal")
        || !key_is(&es[3].0, "wheels") || !key_is(&es[4].0, "rocket_trail")
        || !key_is(&es[5].0, "antenna") || !key_is(&es[6].0, "topper")
        || !key_is(&es[7].0, "unknown1") || !key_is(&es[8].0, "unknown2")
        || !key_is(&es[9].0, "engine_audio") || !key_is(&es[10].0, "trail")
        || !key_is(&es[11].0, "goal_explosion") || !key_is(&es[12].0, "banner")
        || !key_is(&es[13].0, "product_id") {
        return None;
    }
    let version: u8 = match &es[0].1 {
        Value::U8(x) => *x,
        _ => {
            return None;
        },
    };
    let body: u32 = match &es[1].1 {
        Value::U32(x) => *x,
        _ => {
            return None;
        },
    };
    let decal: u32 = match &es[2].1 {
        Value::U32(x) => *x,
        _ => {
            return None;
        },
    };
    let wheels: u32 = match &es[3].1 {
        Value::U32(x) => *x,
        _ => {
            return None;
        },
    };
    let rocket_trail: u32 = match &es[4].1 {
        Value::U32(x) => *x,
        _ => {
            return None;
        },
    };
    let antenna: u32 = match &es[5].1 {
        Value::U32(x) => *x,
        _ => {
            return None;
        },
    };
    let topper: u32 = match &es[6].1 {
        Value::U32(x) => *x,
        _ => {
            return None;
        },
    };
    let unknown1: u32 = match &es[7].1 {
        Value::U32(x) => *x,
        _ => {
            return None;
        },
    };
    let unknown2: Option<u32> = match &es[8].1 {
        Value::U32(x) => Some(*x),
        Value::Null => None,
        _ => {
            return None;
        },
    };
    let engine_audio: Option<u32> = match &es[9].1 {
        Value::U32(x) => Some(*x),
        Value::Null => None,
        _ => {
            return None;
        },
    };
    let trail: Option<u32> = match &es[10].1 {
        Value::U32(x) => Some(*x),
        Value::Null => None,
        _ => {
            return None;
        },
    };
    let goal_explosion: Option<u32> = match &es[11].1 {
        Value::U32(x) => Some(*x),
        Value::Null => None,
        _ => {
            return None;
        },
    };
    let banner: Option<u32> = match &es[12].1 {
        Value::U32(x) => Some(*x),
        Value::Null => None,
        _ => {
            return None;
        },
    };
    let product_id: Option<u32> = match &es[13].1 {
        Value::U32(x) => Some(*x),
        Value::Null => None,
        _ => {
            return None;
        },
    };
    Some(Loadout {
        version,
        body,
        decal,
        wheels,
        rocket_trail,
        antenna,
        topper,
        unknown1,
        unknown2,
        engine_audio,
        trail,
        goal_explosion,
        banner,
        product_id,
    })
}

/// Re-parses a product value from its boundary value; together with
/// [`product_value_value`] this is the lossless round trip for the nested
/// union.
pub fn decode_product_value(v: &Value) -> (r: Option<ProductValue>)
    ensures
        (r matches Some(p) ==> is_product_value_value(p, *v)),
        forall|p: ProductValue| is_product_value_value(p, *v) ==> r == Some(p),
{
    proof {
        reveal_strlit("NoColor");
        reveal_strlit("Absent");
        reveal_strlit("OldColor");
        reveal_strlit("NewColor");
        reveal_strlit("OldPaint");
        reveal_strlit("NewPaint");
        reveal_strlit("Title");
        reveal_strlit("SpecialEdition");
        reveal_strlit("OldTeamEdition");
        reveal_strlit("NewTeamEdition");
        assert("NoColor"@.len() == 7);
        assert("Absent"@.len() == 6);
        assert("OldColor"@.len() == 8);
        assert("NewColor"@.len() == 8);
        assert("OldPaint"@.len() == 8);
        assert("NewPaint"@.len() == 8);
        assert("Title"@.len() == 5);
        assert("SpecialEdition"@.len() == 14);
        assert("OldTeamEdition"@.len() == 14);
        assert("NewTeamEdition"@.len() == 14);
        assert("OldColor"@[0] == 'O' && "OldColor"@[3] == 'C');
        assert("NewColor"@[0] == 'N' && "NewColor"@[3] == 'C');
        assert("OldPaint"@[0] == 'O' && "OldPaint"@[3] == 'P');
        assert("NewPaint"@[0] == 'N' && "NewPaint"@[3] == 'P');
        assert("SpecialEdition"@[0] == 'S');
        assert("OldTeamEdition"@[0] == 'O');
        assert("NewTeamEdition"@[0] == 'N');
        assert("NoColor"@ != "Absent"@);
        assert("OldColor"@ != "NewColor"@);
        assert("OldColor"@ != "OldPaint"@);
        assert("OldColor"@ != "NewPaint"@);
        assert("OldColor"@ != "SpecialEdition"@);
        assert("OldColor"@ != "OldTeamEdition"@);
        assert("OldColor"@ != "NewTeamEdition"@);
        assert("NewColor"@ != "OldPaint"@);
        assert("NewColor"@ != "NewPaint"@);
        assert("NewColor"@ != "SpecialEdition"@);
        assert("NewColor"@ != "OldTeamEdition"@);
        assert("NewColor"@ != "NewTeamEdition"@);
        assert("OldPaint"@ != "NewPaint"@);
        assert("OldPaint"@ != "SpecialEdition"@);
        assert("OldPaint"@ != "OldTeamEdition"@);
        assert("OldPaint"@ != "NewTeamEdition"@);
        assert("NewPaint"@ != "SpecialEdition"@);
        assert("NewPaint"@ != "OldTeamEdition"@);
        assert("NewPaint"@ != "NewTeamEdition"@);
        assert("SpecialEdition"@ != "OldTeamEdition"@);
        assert("SpecialEdition"@ != "NewTeamEdition"@);
        assert("OldTeamEdition"@ != "NewTeamEdition"@);
    }
    match v {
        Value::Str(s) => {
            if key_is(s, "NoColor") {
                Some(ProductValue::NoColor)
            } else if key_is(s, "Absent") {
                Some(ProductValue::Absent)
            } else {
                None
            }
        },
        Value::Object(es) => {
            if es.len() != 1 {
                return None;
            }
            let tag: &String = &es[0].0;
            if key_is(tag, "Title") {
                match &es[0].1 {
                    Value::Str(t) => Some(ProductValue::Title(t.clone())),
                    _ => None,
                }
            } else {
                let x: u32 = match &es[0].1 {
                    Value::U32(x) => *x,
                    _ => {
                        return None;
                    },
                };
                if key_is(tag, "OldColor") {
                    Some(ProductValue::OldColor(x))
                } else if key_is(tag, "NewColor") {
                    Some(ProductValue::NewColor(x))
                } else if key_is(tag, "OldPaint") {
                    Some(ProductValue::OldPaint(x))
                } else if key_is(tag, "NewPaint") {
                    Some(ProductValue::NewPaint(x))
                } else if key_is(tag, "SpecialEdition") {
                    Some(ProductValue::SpecialEdition(x))
                } else if key_is(tag, "OldTeamEdition") {
                    Some(ProductValue::OldTeamEdition(x))
                } else if key_is(tag, "NewTeamEdition") {
                    Some(ProductValue::NewTeamEdition(x))
                } else {
                    None
                }
            }
        },
        _ => None,
    }
}

/// Law (exactly one case): every boundary value of an attribute populates
/// exactly one tag key — the key of its own case — and no other tag.
pub proof fn lemma_attribute_exactly_one(a: Attribute, v: Value)
    requires
        is_attribute_value(a, v),
    ensures
        is_single_key_object(attr_tag(a), v),
        forall|tag: Seq<char>| tag != attr_tag(a) ==> !is_single_key_object(tag, v),
{
}

/// Law (re-parsing preserves the case): any two attributes represented by
/// the same boundary value are of the same case.
pub proof fn lemma_attribute_tag_preserved(a1: Attribute, a2: Attribute, v: Value)
    requires
        is_attribute_value(a1, v),
        is_attribute_value(a2, v),
    ensures
        attr_tag(a1) == attr_tag(a2),
{
}

/// Law (exactly one case, nested): the same holds of every per-platform
/// identity value.
pub proof fn lemma_remote_id_exactly_one(r: RemoteId, v: Value)
    requires
        is_remote_id_value(r, v),
    ensures
        is_single_key_object(remote_id_tag(r), v),
        forall|tag: Seq<char>| tag != remote_id_tag(r) ==> !is_single_key_object(tag, v),
{
}

/// Law (re-parsing preserves the case, nested): any two identities
/// represented by the same boundary value are on the same platform.
pub proof fn lemma_remote_id_tag_preserved(r1: RemoteId, r2: RemoteId, v: Value)
    requires
        is_remote_id_value(r1, v),
        is_remote_id_value(r2, v),
    ensures
        remote_id_tag(r1) == remote_id_tag(r2),
{
}

/// Law (re-parsing preserves the case, nested): any two product values
/// represented by the same boundary value are of the same case.
pub proof fn lemma_product_value_tag_preserved(p1: ProductValue, p2: ProductValue, v: Value)
    requires
        is_product_value_value(p1, v),
        is_product_value_value(p2, v),
    ensures
        product_value_tag(p1) == product_value_tag(p2),
{
}

/// Law (round trip determines the value): a boundary value represents at
/// most one loadout, so re-parsing an encoded loadout can only return the
/// loadout that was encoded.
pub proof fn lemma_loadout_value_injective(l1: Loadout, l2: Loadout, v: Value)
    requires
        is_loadout_value(l1, v),
        is_loadout_value(l2, v),
    ensures
        l1 == l2,
{
}

} // verus!

