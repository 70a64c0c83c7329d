//! Boundary codec behaviour on concrete values: exactly-one-case tags,
//! round trips, ordering, and the sleeping-body normalisation.

use rl_replay::attributes::{
    ActiveActor, Attribute, Loadout, Pickup, ProductValue, Ps4Id, RemoteId, RigidBody, UniqueId,
};
use rl_replay::boundary::Value;
use rl_replay::codec::{
    attribute_value, decode_loadout, decode_product_value, loadout_value, product_value_value,
    remote_id_value,
};
use rl_replay::document::{frame_value, replay_value};
use rl_replay::header::HeaderProp;
use rl_replay::network::{Frame, NewActor, Trajectory};
use rl_replay::primitives::{ActorId, Float32, ObjectId, Quaternion, StreamId, Vector3f};
use rl_replay::replay::Replay;

fn full_loadout() -> Loadout {
    Loadout {
        version: 22,
        body: 23,
        decal: 0,
        wheels: 376,
        rocket_trail: 63,
        antenna: 0,
        topper: 796,
        unknown1: 0,
        unknown2: Some(0),
        engine_audio: Some(1371),
        trail: Some(1898),
        goal_explosion: Some(1907),
        banner: Some(1919),
        product_id: Some(4013),
    }
}

fn f32bits(bits: u32) -> Float32 {
    Float32 { bits }
}

fn vec3(x: u32, y: u32, z: u32) -> Vector3f {
    Vector3f { x: f32bits(x), y: f32bits(y), z: f32bits(z) }
}

#[test]
fn loadout_full_round_trip() {
    let l = full_loadout();
    let v = loadout_value(&l);
    assert_eq!(decode_loadout(&v), Some(l));
}

#[test]
fn loadout_partial_round_trip() {
    let l = Loadout { unknown2: None, trail: None, product_id: None, ..full_loadout() };
    let v = loadout_value(&l);
    assert_eq!(decode_loadout(&v), Some(l));
}

#[test]
fn loadout_decode_rejects_other_shapes() {
    assert_eq!(decode_loadout(&Value::Bool(true)), None);
    assert_eq!(decode_loadout(&Value::Object(Vec::new())), None);
    // A loadout value with one payload of the wrong width must be rejected.
    let v = loadout_value(&full_loadout());
    if let Value::Object(mut es) = v {
        es[1].1 = Value::U8(9);
        assert_eq!(decode_loadout(&Value::Object(es)), None);
    } else {
        panic!("loadout value must be an object");
    }
}

#[test]
fn product_value_round_trips_all_cases() {
    let cases = vec![
        ProductValue::NoColor,
        ProductValue::Absent,
        ProductValue::OldColor(3),
        ProductValue::NewColor(260),
        ProductValue::OldPaint(7),
        ProductValue::NewPaint(12),
        ProductValue::Title("season7".to_owned()),
        ProductValue::SpecialEdition(1),
        ProductValue::OldTeamEdition(4),
        ProductValue::NewTeamEdition(9),
    ];
    for p in cases {
        let v = product_value_value(&p);
        assert_eq!(decode_product_value(&v), Some(p));
    }
}

fn tag_of(v: &Value) -> String {
    v.union_tag().expect("a tagged union value has one key").clone()
}

#[test]
fn attribute_populates_exactly_one_tag() {
    let samples: Vec<(Attribute, &str)> = vec![
        (Attribute::Boolean(true), "Boolean"),
        (Attribute::Byte(7), "Byte"),
        (Attribute::Enum(513), "Enum"),
        (Attribute::FlaggedByte(true, 9), "FlaggedByte"),
        (Attribute::Int(-4), "Int"),
        (Attribute::Int64(-9_000_000_000), "Int64"),
        (Attribute::QWord(18_446_744_073_709_551_615), "QWord"),
        (Attribute::Loadout(Box::new(full_loadout())), "Loadout"),
        (Attribute::Location(vec3(1, 2, 3)), "Location"),
        (Attribute::String("ball".to_owned()), "String"),
        (Attribute::ActiveActor(ActiveActor { active: true, actor: ActorId(2) }), "ActiveActor"),
        (Attribute::PartyLeader(None), "PartyLeader"),
        (
            Attribute::Pickup(Pickup { instigator: Some(ActorId(8)), picked_up: true }),
            "Pickup",
        ),
    ];
    for (a, expected_tag) in samples {
        let v = attribute_value(&a);
        match &v {
            Value::Object(es) => {
                assert_eq!(es.len(), 1, "exactly one tag key must be populated");
                assert_eq!(es[0].0, expected_tag);
            }
            other => panic!("attribute value must be an object, got {other:?}"),
        }
        assert_eq!(tag_of(&v), expected_tag);
    }
}

#[test]
fn remote_id_populates_exactly_one_tag() {
    let samples: Vec<(RemoteId, &str)> = vec![
        (RemoteId::Steam(76561198101175561), "Steam"),
        (RemoteId::Xbox(1234), "Xbox"),
        (RemoteId::QQ(77), "QQ"),
        (RemoteId::Epic("epic-name".to_owned()), "Epic"),
        (RemoteId::SplitScreen(1), "SplitScreen"),
        (
            RemoteId::PlayStation(Ps4Id {
                online_id: 9,
                name: "player".to_owned(),
                unknown1: vec![1, 2, 3],
            }),
            "PlayStation",
        ),
    ];
    for (r, expected_tag) in samples {
        let v = remote_id_value(&r);
        match &v {
            Value::Object(es) => {
                assert_eq!(es.len(), 1);
                assert_eq!(es[0].0, expected_tag);
            }
            other => panic!("remote id value must be an object, got {other:?}"),
        }
    }
}

#[test]
fn unique_id_nested_union_keeps_one_tag() {
    let u = UniqueId {
        system_id: 1,
        remote_id: RemoteId::Steam(42),
        local_id: 0,
    };
    let v = rl_replay::codec::unique_id_value(&u);
    match &v {
        Value::Object(es) => {
            assert_eq!(es.len(), 3);
            assert_eq!(es[1].0, "remote_id");
            match &es[1].1 {
                Value::Object(inner) => {
                    assert_eq!(inner.len(), 1);
                    assert_eq!(inner[0].0, "Steam");
                    assert!(matches!(inner[0].1, Value::U64(42)));
                }
                other => panic!("nested union must be an object, got {other:?}"),
            }
        }
        other => panic!("unique id value must be an object, got {other:?}"),
    }
}

#[test]
fn sleeping_rigid_body_normalises_velocities_to_zero() {
    let rb = RigidBody {
        sleeping: true,
        location: vec3(10, 20, 30),
        rotation: Quaternion { x: f32bits(1), y: f32bits(2), z: f32bits(3), w: f32bits(4) },
        linear_velocity: None,
        angular_velocity: None,
    };
    let n = rb.normalized();
    assert_eq!(n.linear_velocity, Some(vec3(0, 0, 0)));
    assert_eq!(n.angular_velocity, Some(vec3(0, 0, 0)));
    assert_eq!(n.location, rb.location);

    let awake = RigidBody { sleeping: false, linear_velocity: Some(vec3(9, 9, 9)), ..rb };
    let m = awake.normalized();
    assert_eq!(m.linear_velocity, Some(vec3(9, 9, 9)));
    assert_eq!(m.angular_velocity, None);
}

fn empty_replay() -> Replay {
    Replay {
        header_size: 0,
        header_crc: 0,
        major_version: 105,
        minor_version: 10,
        net_version: None,
        game_type: "TAGame.Replay_Soccar_TA".to_owned(),
        properties: Vec::new(),
        content_size: 0,
        content_crc: 0,
        network_frames: None,
        levels: Vec::new(),
        keyframes: Vec::new(),
        debug_info: Vec::new(),
        tick_marks: Vec::new(),
        packages: Vec::new(),
        objects: Vec::new(),
        names: Vec::new(),
        class_indices: Vec::new(),
        net_cache: Vec::new(),
    }
}

#[test]
fn property_order_and_duplicates_survive_assembly() {
    let mut r = empty_replay();
    r.properties.push(("TeamSize".to_owned(), HeaderProp::Int(3)));
    r.properties.push(("MaxChannels".to_owned(), HeaderProp::Int(1023)));
    r.properties.push(("TeamSize".to_owned(), HeaderProp::Int(5)));
    let v = replay_value(&r);
    let es = match v {
        Value::Object(es) => es,
        other => panic!("replay value must be an object, got {other:?}"),
    };
    assert_eq!(es[6].0, "properties");
    let props = match &es[6].1 {
        Value::Object(ps) => ps,
        other => panic!("properties must be an ordered object, got {other:?}"),
    };
    let keys: Vec<&str> = props.iter().map(|(k, _)| k.as_str()).collect();
    assert_eq!(keys, vec!["TeamSize", "MaxChannels", "TeamSize"]);
    assert!(matches!(props[0].1, Value::I32(3)));
    assert!(matches!(props[2].1, Value::I32(5)));
}

fn spawn(id: i32) -> NewActor {
    NewActor {
        actor_id: ActorId(id),
        name_id: None,
        object_id: ObjectId(1),
        initial_trajectory: Trajectory { location: None, rotation: None },
    }
}

fn frame(new_ids: &[i32], deleted_ids: &[i32]) -> Frame {
    Frame {
        time: f32bits(0),
        delta: f32bits(0),
        new_actors: new_ids.iter().map(|id| spawn(*id)).collect(),
        deleted_actors: deleted_ids.iter().map(|id| ActorId(*id)).collect(),
        updated_actors: Vec::new(),
    }
}

#[test]
fn frame_event_lists_keep_emission_order() {
    let f = Frame {
        time: f32bits(100),
        delta: f32bits(7),
        new_actors: vec![spawn(4), spawn(2), spawn(9)],
        deleted_actors: vec![ActorId(11), ActorId(3)],
        updated_actors: vec![rl_replay::network::UpdatedAttribute {
            actor_id: ActorId(2),
            stream_id: StreamId(6),
            object_id: ObjectId(40),
            attribute: Attribute::Boolean(true),
        }],
    };
    let v = frame_value(&f);
    let es = match v {
        Value::Object(es) => es,
        other => panic!("frame value must be an object, got {other:?}"),
    };
    let ns = match &es[2].1 {
        Value::Array(ns) => ns,
        other => panic!("new_actors must be an array, got {other:?}"),
    };
    let spawned: Vec<i32> = ns
        .iter()
        .map(|n| match n {
            Value::Object(fields) => match fields[0].1 {
                Value::I32(id) => id,
                _ => panic!("actor_id must be a 32-bit signed value"),
            },
            _ => panic!("a new actor must be an object"),
        })
        .collect();
    assert_eq!(spawned, vec![4, 2, 9]);
    let ds = match &es[3].1 {
        Value::Array(ds) => ds,
        other => panic!("deleted_actors must be an array, got {other:?}"),
    };
    assert!(matches!(ds[0], Value::I32(11)));
    assert!(matches!(ds[1], Value::I32(3)));
}

#[test]
fn actor_span_index_keys_by_id_and_window() {
    // Actor id 5 lives twice: spawned in frame 0, destroyed in frame 1,
    // spawned again in frame 3. The index yields two separate windows
    // whose ranges do not overlap.
    let frames = vec![
        frame(&[5, 7], &[]),
        frame(&[], &[5]),
        frame(&[], &[]),
        frame(&[5], &[]),
    ];
    let spans = rl_replay::replay::actor_spans(&frames);
    assert_eq!(spans.len(), 3);
    assert_eq!(spans[0].actor_id, ActorId(5));
    assert_eq!(spans[0].spawned, 0);
    assert_eq!(spans[0].destroyed, Some(1));
    assert_eq!(spans[1].actor_id, ActorId(7));
    assert_eq!(spans[1].destroyed, None);
    assert_eq!(spans[2].actor_id, ActorId(5));
    assert_eq!(spans[2].spawned, 3);
    assert_eq!(spans[2].destroyed, None);
}

#[test]
fn reused_actor_id_stays_distinguishable_by_frame_position() {
    // Actor id 5 is destroyed in frame 1 and a new actor reuses id 5 in
    // frame 3: both occurrences survive in the model and in the boundary
    // document, separated by frame position, never conflated.
    let frames = vec![
        frame(&[5], &[]),
        frame(&[], &[5]),
        frame(&[], &[]),
        frame(&[5], &[]),
    ];
    let mut r = empty_replay();
    r.network_frames = Some(rl_replay::network::NetworkFrames { frames });
    let v = replay_value(&r);
    let es = match v {
        Value::Object(es) => es,
        other => panic!("replay value must be an object, got {other:?}"),
    };
    assert_eq!(es[9].0, "network_frames");
    let frames_v = match &es[9].1 {
        Value::Object(nf) => match &nf[0].1 {
            Value::Array(fs) => fs,
            other => panic!("frames must be an array, got {other:?}"),
        },
        other => panic!("network frames must be an object, got {other:?}"),
    };
    assert_eq!(frames_v.len(), 4);
    let spawns_in = |i: usize| -> usize {
        match &frames_v[i] {
            Value::Object(fes) => match &fes[2].1 {
                Value::Array(ns) => ns.len(),
                _ => panic!("new_actors must be an array"),
            },
            _ => panic!("a frame must be an object"),
        }
    };
    assert_eq!(spawns_in(0), 1);
    assert_eq!(spawns_in(1), 0);
    assert_eq!(spawns_in(3), 1);
}
