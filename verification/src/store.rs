//! Component types of the entity store.
//!
//! Entities are plain composition: a player, a camera, projectiles and
//! scripted entities each own a disjoint set of the components below.  Every
//! type carries a well-formedness predicate that constructors establish and
//! the per-tick systems preserve.

use vstd::prelude::*;
use crate::aim::AimAngle;
use crate::fixp::{iabs, SCALE, SPEED_MAX, WORLD_BOUND};
use crate::geom::{Vec2Fx, Vec3Fx};

verus! {

/// Movement speed of the player, fixed-point units per second.
pub const PLAYER_SPEED: i64 = 300_000;

/// Radius of the player's sprite; shots originate this far from the
/// player's centre, along the direction of fire.
pub const PLAYER_SIZE: i64 = 20_000;

/// Movement speed of every projectile, fixed-point units per second.
pub const BULLET_SPEED: i64 = 1_000_000;

/// Movement speed of scripted entities, fixed-point units per second.
pub const ENTITY_SPEED: i64 = 10_000;

/// A position with a depth-ordering coordinate and an optional rotation
/// about the depth axis.  No movement or camera update ever alters the
/// depth coordinate or the rotation.
#[derive(Clone, Copy, PartialEq, Eq, Structural, Debug)]
pub struct Transform {
    pub pos: Vec3Fx,
    pub rot: Option<AimAngle>,
}

impl Transform {
    /// The position lies within the world's extent.
    pub open spec fn wf(self) -> bool {
        self.pos.in_world()
    }

    /// A transform at the given plane position, at depth zero, unrotated.
    pub fn at_origin_of(x: i64, y: i64) -> (t: Transform)
        ensures
            t == (Transform { pos: Vec3Fx { x, y, z: 0 }, rot: None::<AimAngle> }),
    {
        Transform { pos: Vec3Fx { x, y, z: 0 }, rot: None }
    }
}

/// Weapon stat archetypes.
#[derive(Clone, Copy, PartialEq, Eq, Structural, Debug)]
pub enum GunKind {
    Pistol,
    Rifle,
}

/// Weapon stats carried by the player.  Advisory data: the firing logic
/// itself does not consume them.
#[derive(Clone, Copy, PartialEq, Eq, Structural, Debug)]
pub struct Gun {
    pub kind: GunKind,
    pub durability: i64,
}

/// The stock pistol the player starts with.
pub fn gun_glock() -> (g: Gun)
    ensures
        g == (Gun { kind: GunKind::Pistol, durability: 100_000 }),
{
    Gun { kind: GunKind::Pistol, durability: 100_000 }
}

/// The player: a transform, a movement speed and a weapon.
#[derive(Clone, Copy, PartialEq, Eq, Structural, Debug)]
pub struct Player {
    pub transform: Transform,
    pub speed: i64,
    pub gun: Gun,
}

impl Player {
    /// In-world position and a speed within machine-safe range.
    pub open spec fn wf(self) -> bool {
        &&& self.transform.wf()
        &&& 0 <= self.speed <= SPEED_MAX
    }
}

/// Creates the player at the origin with the standard speed and weapon.
pub fn spawn_player() -> (p: Player)
    ensures
        p.wf(),
        p.transform.pos == (Vec3Fx { x: 0, y: 0, z: 0 }),
        p.transform.rot == Option::<AimAngle>::None,
        p.speed == PLAYER_SPEED,
        p.gun == (Gun { kind: GunKind::Pistol, durability: 100_000 }),
{
    Player { transform: Transform::at_origin_of(0, 0), speed: PLAYER_SPEED, gun: gun_glock() }
}

/// A projectile's own components: speed, unit direction and exact spawn
/// angle; its position lives in a transform of its own.
#[derive(Clone, Copy, PartialEq, Eq, Structural, Debug)]
pub struct Bullet {
    pub speed: i64,
    pub dir: Vec2Fx,
    pub angle: AimAngle,
}

impl Bullet {
    /// The direction is a nonzero fixed-point unit vector (unit up to the
    /// rounding of normalisation) and the speed is within range.
    pub open spec fn wf(self) -> bool {
        &&& 0 <= self.speed <= SPEED_MAX
        &&& iabs(self.dir.x as int) <= SCALE
        &&& iabs(self.dir.y as int) <= SCALE
        &&& !(self.dir.x == 0 && self.dir.y == 0)
        &&& self.angle.wf()
    }
}

/// A one-tick-lived request to create a projectile: spawn origin, unit
/// direction and exact angle.  Events are queued during input translation
/// and fully drained in the same tick.
#[derive(Clone, Copy, PartialEq, Eq, Structural, Debug)]
pub struct PlayerBulletFireEvent {
    pub pos: Vec2Fx,
    pub dir: Vec2Fx,
    pub angle: AimAngle,
}

impl PlayerBulletFireEvent {
    /// Origin in the world, direction a nonzero bounded unit vector.
    pub open spec fn wf(self) -> bool {
        &&& self.pos.in_world()
        &&& iabs(self.dir.x as int) <= SCALE
        &&& iabs(self.dir.y as int) <= SCALE
        &&& !(self.dir.x == 0 && self.dir.y == 0)
        &&& self.angle.wf()
    }
}

/// An intent of a scripted entity: travel to a target, or attack.
#[derive(Clone, Copy, PartialEq, Eq, Structural, Debug)]
pub enum QueueEvent {
    TravelEvent(Vec2Fx),
    AttackEvent,
}

/// Ordered first-in-first-out intents of one scripted entity; the front
/// intent is removed only on completion and never reordered.
#[derive(Clone, PartialEq, Eq, Debug)]
pub struct CommandQueue(pub Vec<QueueEvent>);

impl CommandQueue {
    /// Every travel target lies within the world's extent.
    pub open spec fn wf(self) -> bool {
        forall|i: int|
            0 <= i < self.0@.len() ==> (match #[trigger] self.0@[i] {
                QueueEvent::TravelEvent(t) => t.in_world(),
                QueueEvent::AttackEvent => true,
            })
    }
}

/// A scripted entity: a labelled kind, a transform, a linear velocity that
/// an external rigid-body integrator would consume, a speed, and its
/// command queue.
#[derive(Clone, PartialEq, Eq, Debug)]
pub struct ScriptedEntity {
    pub kind: String,
    pub transform: Transform,
    pub velocity: Vec2Fx,
    pub speed: i64,
    pub queue: CommandQueue,
}

impl ScriptedEntity {
    /// In-world position, bounded speed and velocity, well-formed queue.
    pub open spec fn wf(self) -> bool {
        &&& self.transform.wf()
        &&& 0 <= self.speed <= SPEED_MAX
        &&& iabs(self.velocity.x as int) <= SPEED_MAX
        &&& iabs(self.velocity.y as int) <= SPEED_MAX
        &&& self.queue.wf()
    }
}

/// Creates the example scripted entity: at the origin, at rest, with a
/// single intent to travel to `(500, 500)` world units.
pub fn entity_setup() -> (e: ScriptedEntity)
    ensures
        e.wf(),
        e.transform.pos == (Vec3Fx { x: 0, y: 0, z: 0 }),
        e.velocity == (Vec2Fx { x: 0, y: 0 }),
        e.speed == ENTITY_SPEED,
        e.queue.0@.len() == 1,
        e.queue.0@[0] == QueueEvent::TravelEvent(Vec2Fx { x: 500_000, y: 500_000 }),
{
    let mut q: Vec<QueueEvent> = Vec::new();
    q.push(QueueEvent::TravelEvent(Vec2Fx { x: 500_000, y: 500_000 }));
    ScriptedEntity {
        kind: "Example".to_string(),
        transform: Transform::at_origin_of(0, 0),
        velocity: Vec2Fx { x: 0, y: 0 },
        speed: ENTITY_SPEED,
        queue: CommandQueue(q),
    }
}

} // verus!
