//! The dynamic entities of the world and their well-formedness.
//!
//! Every quantity is a fixed-point integer (1000 stored units per world
//! unit): positions, extents, health and damage. Durations are milliseconds.

use vstd::prelude::*;
use crate::geom::Vec2i;
use crate::timer::{Timer, timer_wf};

verus! {

/// Upper bound on the magnitude of any velocity or speed, in stored units
/// per second.
pub const VEL_LIMIT: i64 = 1_000_000;

/// Upper bound on an entity's extent.
pub const SIZE_LIMIT: i64 = 1_000_000;

/// Upper bound on hit points and damage values.
pub const HEALTH_LIMIT: i64 = 1_000_000_000;

/// Bound on entity positions at the start of a tick. Each tick moves an
/// entity by less than `STEP_LIMIT`, and every intermediate position stays
/// far below the range where the geometry helpers live.
pub const POS_LIMIT: i64 = 1_000_000_000_000;

/// Upper bound on how far one tick phase can move an entity.
pub const STEP_LIMIT: i64 = 1_000_000_000;

/// Upper bound on the elapsed milliseconds a single tick may carry.
pub const DT_LIMIT: u64 = 1_000_000;

/// Both coordinates of `p` are within `b` of zero.
pub open spec fn pos_within(p: Vec2i, b: int) -> bool {
    -b <= p.x <= b && -b <= p.y <= b
}

/// Current and maximum hit points, in fixed-point units.
#[derive(Clone, Copy, PartialEq, Eq, Structural, Debug)]
pub struct Health {
    pub current: i64,
    pub max: i64,
}

pub open spec fn health_wf(h: Health) -> bool {
    1 <= h.max <= HEALTH_LIMIT && h.current <= h.max
}

/// Movement speed in stored units per second.
#[derive(Clone, Copy, PartialEq, Eq, Structural, Debug)]
pub struct Speed(pub i64);

pub open spec fn speed_wf(s: Speed) -> bool {
    0 <= s.0 <= VEL_LIMIT
}

/// The three weapon slots.
#[derive(Clone, Copy, PartialEq, Eq, Structural, Debug)]
pub enum WeaponType {
    Pistol,
    Shotgun,
    Rifle,
}

/// Damage a single projectile of the given weapon deals, in fixed-point
/// hit points.
pub open spec fn weapon_damage_spec(w: WeaponType) -> i64 {
    match w {
        WeaponType::Pistol => 10_000,
        WeaponType::Shotgun => 25_000,
        WeaponType::Rifle => 20_000,
    }
}

pub fn weapon_damage(w: WeaponType) -> (d: i64)
    ensures
        d == weapon_damage_spec(w),
{
    match w {
        WeaponType::Pistol => 10_000,
        WeaponType::Shotgun => 25_000,
        WeaponType::Rifle => 20_000,
    }
}

/// The player's weapon: selected slot, cooldown state and ammunition.
#[derive(Clone, Copy, PartialEq, Eq, Structural, Debug)]
pub struct WeaponStats {
    /// Cooldown between shots, in milliseconds.
    pub fire_rate_ms: u64,
    /// The running cooldown timer (repeating).
    pub timer: Timer,
    pub current_ammo: u32,
    pub max_ammo: u32,
    pub current_weapon: WeaponType,
}

pub open spec fn weapon_wf(w: WeaponStats) -> bool {
    &&& 1 <= w.fire_rate_ms <= 1_000_000_000
    &&& timer_wf(w.timer)
    &&& w.timer.repeating
    &&& w.timer.duration_ms <= 1_000_000_000
    &&& w.timer.elapsed_ms <= 1_000_000_000
    &&& w.current_ammo <= w.max_ammo
}

/// The player entity.
#[derive(Clone, Copy, PartialEq, Eq, Structural, Debug)]
pub struct Player {
    pub pos: Vec2i,
    /// Unit facing direction scaled by 1000; set by aiming.
    pub facing: Vec2i,
    pub speed: Speed,
    pub health: Health,
    pub weapon: WeaponStats,
}

pub open spec fn player_wf(p: Player) -> bool {
    &&& health_wf(p.health)
    &&& p.health.current >= 1
    &&& speed_wf(p.speed)
    &&& -1000 <= p.facing.x <= 1000
    &&& -1000 <= p.facing.y <= 1000
    &&& weapon_wf(p.weapon)
}

/// A zombie: position, square extent, hit points and the bounty paid when
/// it dies.
#[derive(Clone, Copy, PartialEq, Eq, Structural, Debug)]
pub struct Zombie {
    pub pos: Vec2i,
    /// Full extent of its square body.
    pub size: i64,
    pub health: Health,
    pub money_reward: u32,
}

pub open spec fn zombie_wf(z: Zombie) -> bool {
    &&& 0 <= z.size <= SIZE_LIMIT
    &&& health_wf(z.health)
    &&& z.health.current >= 1
    &&& z.money_reward <= 1000
}

/// A projectile in flight.
#[derive(Clone, Copy, PartialEq, Eq, Structural, Debug)]
pub struct Projectile {
    pub pos: Vec2i,
    /// Velocity in stored units per second.
    pub velocity: Vec2i,
    /// One-shot timer; the projectile expires when it finishes.
    pub lifetime: Timer,
    pub damage: i64,
}

pub open spec fn projectile_wf(p: Projectile) -> bool {
    &&& -VEL_LIMIT <= p.velocity.x <= VEL_LIMIT
    &&& -VEL_LIMIT <= p.velocity.y <= VEL_LIMIT
    &&& timer_wf(p.lifetime)
    &&& !p.lifetime.repeating
    &&& p.lifetime.elapsed_ms <= p.lifetime.duration_ms <= 1_000_000_000
    &&& 0 <= p.damage <= HEALTH_LIMIT
}

/// A static obstacle: an axis-aligned box that blocks movement and stops
/// projectiles.
#[derive(Clone, Copy, PartialEq, Eq, Structural, Debug)]
pub struct Wall {
    pub pos: Vec2i,
    /// Full extents of the box.
    pub size: Vec2i,
}

pub open spec fn wall_wf(w: Wall) -> bool {
    w.size.x >= 0 && w.size.y >= 0
}

} // verus!
