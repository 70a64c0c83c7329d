//! The closed set of per-actor-update payload types.
//!
//! [`Attribute`], [`RemoteId`] and [`ProductValue`] are true sum types, so
//! the "exactly one variant populated" invariant is enforced structurally:
//! an illegal two-variants-populated state is unrepresentable. The boundary
//! codec proves that this invariant survives conversion into the generic
//! structured-value representation.
//!
//! Variants whose payload is larger than a rigid-body record are heap
//! indirected (`Box`) to amortise copying cost; this changes no observable
//! structure.

use vstd::prelude::*;
use crate::primitives::{ActorId, Float32, ObjectId, Quaternion, Rotation, Vector3f};

verus! {

/// Whether a linked actor is active, and which actor it is.
#[derive(Debug, Clone, Copy, PartialEq, Eq, Structural)]
pub struct ActiveActor {
    pub active: bool,
    pub actor: ActorId,
}

/// A player's camera settings.
#[derive(Debug, Clone, Copy, PartialEq)]
pub struct CamSettings {
    pub fov: Float32,
    pub height: Float32,
    pub angle: Float32,
    pub distance: Float32,
    pub stiffness: Float32,
    pub swivel: Float32,
    pub transition: Option<Float32>,
}

/// Club colour selections for both teams.
#[derive(Debug, Clone, Copy, PartialEq, Eq, Structural)]
pub struct ClubColors {
    pub blue_flag: bool,
    pub blue_color: u8,
    pub orange_flag: bool,
    pub orange_color: u8,
}

/// Damage applied to a dropshot tile.
#[derive(Debug, Clone, Copy, PartialEq, Eq, Structural)]
pub struct AppliedDamage {
    pub id: u8,
    pub position: Vector3f,
    pub damage_index: i32,
    pub total_damage: i32,
}

/// The damage state of a dropshot tile.
#[derive(Debug, Clone, Copy, PartialEq, Eq, Structural)]
pub struct DamageState {
    /// State of the tile (0 undamaged, 1 damaged, 2 destroyed).
    pub tile_state: u8,
    pub damaged: bool,
    /// The player actor that inflicted the damage.
    pub offender: ActorId,
    /// Ball position at the time of the damage.
    pub ball_position: Vector3f,
    /// True for the tile directly hit by the ball.
    pub direct_hit: bool,
    pub unknown1: bool,
}

/// A demolition event.
#[derive(Debug, Clone, Copy, PartialEq, Eq, Structural)]
pub struct Demolish {
    pub attacker_flag: bool,
    pub attacker: ActorId,
    pub victim_flag: bool,
    pub victim: ActorId,
    pub attack_velocity: Vector3f,
    pub victim_velocity: Vector3f,
}

/// A demolition event with replication info for everyone involved.
#[derive(Debug, Clone, Copy, PartialEq, Eq, Structural)]
pub struct DemolishExtended {
    /// Player replication info of the attacker.
    pub attacker_pri: ActiveActor,
    pub self_demo: ActiveActor,
    pub self_demolish: bool,
    pub goal_explosion_owner: ActiveActor,
    pub attacker: ActiveActor,
    pub victim: ActiveActor,
    pub attacker_velocity: Vector3f,
    pub victim_velocity: Vector3f,
}

/// A demolition event with a custom demolition effect.
#[derive(Debug, Clone, Copy, PartialEq, Eq, Structural)]
pub struct DemolishFx {
    pub custom_demo_flag: bool,
    pub custom_demo_id: i32,
    pub attacker_flag: bool,
    pub attacker: ActorId,
    pub victim_flag: bool,
    pub victim: ActorId,
    pub attack_velocity: Vector3f,
    pub victim_velocity: Vector3f,
}

/// An explosion anchored to an actor.
#[derive(Debug, Clone, Copy, PartialEq, Eq, Structural)]
pub struct Explosion {
    pub flag: bool,
    pub actor: ActorId,
    pub location: Vector3f,
}

/// An explosion with a secondary actor.
#[derive(Debug, Clone, Copy, PartialEq, Eq, Structural)]
pub struct ExtendedExplosion {
    pub explosion: Explosion,
    pub unknown1: bool,
    pub secondary_actor: ActorId,
}

/// A car loadout; the trailing fields were added over successive versions
/// of the format, so each is independently optional.
#[derive(Debug, Clone, Copy, PartialEq)]
pub struct Loadout {
    pub version: u8,
    pub body: u32,
    pub decal: u32,
    pub wheels: u32,
    pub rocket_trail: u32,
    pub antenna: u32,
    pub topper: u32,
    pub unknown1: u32,
    pub unknown2: Option<u32>,
    pub engine_audio: Option<u32>,
    pub trail: Option<u32>,
    pub goal_explosion: Option<u32>,
    pub banner: Option<u32>,
    pub product_id: Option<u32>,
}

/// Loadouts for both teams.
#[derive(Debug, Clone, Copy, PartialEq)]
pub struct TeamLoadout {
    pub blue: Loadout,
    pub orange: Loadout,
}

/// A replicated stat event.
#[derive(Debug, Clone, Copy, PartialEq, Eq, Structural)]
pub struct StatEvent {
    pub unknown1: bool,
    pub object_id: i32,
}

/// A music stinger cue.
#[derive(Debug, Clone, Copy, PartialEq, Eq, Structural)]
pub struct MusicStinger {
    pub flag: bool,
    pub cue: u32,
    pub trigger: u8,
}

/// A boost pickup event.
#[derive(Debug, Clone, Copy, PartialEq)]
pub struct Pickup {
    pub instigator: Option<ActorId>,
    pub picked_up: bool,
}

/// A boost pickup event in the newer encoding.
#[derive(Debug, Clone, Copy, PartialEq)]
pub struct PickupNew {
    pub instigator: Option<ActorId>,
    pub picked_up: u8,
}

/// Two actors welded together.
#[derive(Debug, Clone, Copy, PartialEq)]
pub struct Welded {
    pub active: bool,
    pub actor: ActorId,
    pub offset: Vector3f,
    pub mass: Float32,
    pub rotation: Rotation,
}

/// Team paint selections.
#[derive(Debug, Clone, Copy, PartialEq, Eq, Structural)]
pub struct TeamPaint {
    pub team: u8,
    pub primary_color: u8,
    pub accent_color: u8,
    pub primary_finish: u32,
    pub accent_finish: u32,
}

/// The physical state of an actor. When `sleeping` is true the velocities
/// are semantically zero even when the fields are absent; the boundary
/// codec normalises that at decode time rather than leaving it to display
/// code.
#[derive(Debug, Clone, Copy, PartialEq)]
pub struct RigidBody {
    pub sleeping: bool,
    pub location: Vector3f,
    pub rotation: Quaternion,
    pub linear_velocity: Option<Vector3f>,
    pub angular_velocity: Option<Vector3f>,
}

/// The zero vector; the all-zero bit pattern is the zero value.
pub open spec fn spec_zero_vector() -> Vector3f {
    Vector3f { x: Float32 { bits: 0 }, y: Float32 { bits: 0 }, z: Float32 { bits: 0 } }
}

impl RigidBody {
    /// Normalises the sleeping convention: a sleeping body's velocities are
    /// semantically zero even when the fields were absent from the stream,
    /// so they become explicit zero vectors here, at decode time, rather
    /// than being left for display code to guess. A body that is awake is
    /// returned unchanged.
    pub fn normalized(&self) -> (r: RigidBody)
        ensures
            r.sleeping == self.sleeping,
            r.location == self.location,
            r.rotation == self.rotation,
            self.sleeping ==> r.linear_velocity == Some(spec_zero_vector())
                && r.angular_velocity == Some(spec_zero_vector()),
            !self.sleeping ==> r.linear_velocity == self.linear_velocity
                && r.angular_velocity == self.angular_velocity,
    {
        if self.sleeping {
            let zero = Vector3f {
                x: Float32 { bits: 0 },
                y: Float32 { bits: 0 },
                z: Float32 { bits: 0 },
            };
            RigidBody { linear_velocity: Some(zero), angular_velocity: Some(zero), ..*self }
        } else {
            *self
        }
    }
}

/// A platform-independent identity record.
#[derive(Debug, Clone, PartialEq)]
pub struct UniqueId {
    pub system_id: u8,
    pub remote_id: RemoteId,
    pub local_id: u8,
}

/// An identity on the PsyNet service.
#[derive(Debug, Clone, PartialEq)]
pub struct PsyNetId {
    pub online_id: u64,
    pub unknown1: Vec<u8>,
}

/// An identity on the Switch platform.
#[derive(Debug, Clone, PartialEq)]
pub struct SwitchId {
    pub online_id: u64,
    pub unknown1: Vec<u8>,
}

/// An identity on the PlayStation platform.
#[derive(Debug, Clone, PartialEq)]
pub struct Ps4Id {
    pub online_id: u64,
    pub name: String,
    pub unknown1: Vec<u8>,
}

/// The per-platform half of a [`UniqueId`]: a nested tagged union with the
/// same exactly-one-case rule as [`Attribute`].
#[derive(Debug, Clone, PartialEq)]
pub enum RemoteId {
    PlayStation(Ps4Id),
    PsyNet(PsyNetId),
    SplitScreen(u32),
    Steam(u64),
    Switch(SwitchId),
    Xbox(u64),
    QQ(u64),
    Epic(String),
}

/// A reserved spot in a private match.
#[derive(Debug, Clone, PartialEq)]
pub struct Reservation {
    pub number: u32,
    pub unique_id: UniqueId,
    pub name: Option<String>,
    pub unknown1: bool,
    pub unknown2: bool,
    pub unknown3: Option<u8>,
}

/// Settings of a private match.
#[derive(Debug, Clone, PartialEq)]
pub struct PrivateMatchSettings {
    pub mutators: String,
    pub joinable_by: u32,
    pub max_players: u32,
    pub game_name: String,
    pub password: String,
    pub flag: bool,
}

/// One customisation product applied to a loadout slot.
#[derive(Debug, Clone, PartialEq)]
pub struct Product {
    pub unknown: bool,
    pub object_ind: ObjectId,
    pub value: ProductValue,
}

/// Online loadouts for both teams.
#[derive(Debug, Clone, PartialEq)]
pub struct LoadoutsOnline {
    pub blue: Vec<Vec<Product>>,
    pub orange: Vec<Vec<Product>>,
    pub unknown1: bool,
    pub unknown2: bool,
}

/// The value of a customisation product: a nested tagged union with the
/// same exactly-one-case rule as [`Attribute`].
#[derive(Debug, Clone, PartialEq)]
pub enum ProductValue {
    NoColor,
    Absent,
    OldColor(u32),
    NewColor(u32),
    OldPaint(u32),
    NewPaint(u32),
    Title(String),
    SpecialEdition(u32),
    OldTeamEdition(u32),
    NewTeamEdition(u32),
}

/// A replicated stat title.
#[derive(Debug, Clone, PartialEq)]
pub struct RepStatTitle {
    pub unknown: bool,
    pub name: String,
    pub unknown2: bool,
    pub index: u32,
    pub value: u32,
}

/// Pickup information in the newest encoding.
#[derive(Debug, Clone, Copy, PartialEq, Eq, Structural)]
pub struct PickupInfo {
    pub active: bool,
    pub actor: ActorId,
    pub items_are_preview: bool,
    pub unknown: bool,
    pub unknown2: bool,
}

/// An impulse applied to an actor.
#[derive(Debug, Clone, Copy, PartialEq, Eq, Structural)]
pub struct Impulse {
    pub compressed_rotation: i32,
    pub speed: Float32,
}

/// Boost amount replication.
#[derive(Debug, Clone, Copy, PartialEq, Eq, Structural)]
pub struct ReplicatedBoost {
    pub grant_count: u8,
    pub boost_amount: u8,
    pub unused1: u8,
    pub unused2: u8,
}

/// A club logo selection.
#[derive(Debug, Clone, Copy, PartialEq, Eq, Structural)]
pub struct LogoData {
    pub logo_id: u32,
    pub swap_colors: bool,
}

/// The payload of one actor-property update: a closed tagged union in which
/// exactly one variant is ever populated, enforced by the type itself.
#[derive(Debug, Clone, PartialEq)]
pub enum Attribute {
    Boolean(bool),
    Byte(u8),
    AppliedDamage(AppliedDamage),
    DamageState(DamageState),
    CamSettings(Box<CamSettings>),
    ClubColors(ClubColors),
    Demolish(Box<Demolish>),
    DemolishExtended(Box<DemolishExtended>),
    DemolishFx(Box<DemolishFx>),
    Enum(u16),
    Explosion(Explosion),
    ExtendedExplosion(ExtendedExplosion),
    FlaggedByte(bool, u8),
    ActiveActor(ActiveActor),
    Float(Float32),
    GameMode(u8, u8),
    Int(i32),
    Int64(i64),
    Loadout(Box<Loadout>),
    TeamLoadout(Box<TeamLoadout>),
    Location(Vector3f),
    MusicStinger(MusicStinger),
    PlayerHistoryKey(u16),
    Pickup(Pickup),
    PickupNew(PickupNew),
    QWord(u64),
    Welded(Welded),
    Title(bool, bool, u32, u32, u32, u32, u32, bool),
    TeamPaint(TeamPaint),
    RigidBody(RigidBody),
    String(String),
    UniqueId(Box<UniqueId>),
    Reservation(Box<Reservation>),
    PartyLeader(Option<Box<UniqueId>>),
    PrivateMatch(Box<PrivateMatchSettings>),
    LoadoutOnline(Vec<Vec<Product>>),
    LoadoutsOnline(LoadoutsOnline),
    StatEvent(StatEvent),
    Rotation(Rotation),
    RepStatTitle(RepStatTitle),
    PickupInfo(PickupInfo),
    Impulse(Impulse),
    ReplicatedBoost(ReplicatedBoost),
    LogoData(LogoData),
}

} // verus!
