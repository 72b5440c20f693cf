//! The player: spawning with persistent upgrades applied, aiming, weapon
//! selection and firing.

use vstd::prelude::*;
use crate::components::{
    DT_LIMIT, Health, POS_LIMIT, Player, Projectile, Speed, WeaponStats, WeaponType, Zombie,
    pos_within, weapon_damage, weapon_damage_spec, weapon_wf,
};
use crate::geom::Vec2i;
use crate::num::{isqrt, lemma_component_le_sqrt, lemma_scale_ratio_bound, scale, scale_spec, sqrt_floor};
use crate::progression::GlobalPlayerStats;
use crate::timer::{Timer, timer_after_tick};
use crate::world::World;

verus! {

/// Base cooldown between shots, in milliseconds.
pub const FIRE_RATE_BASE_MS: u64 = 500;

/// Base ammunition capacity.
pub const BASE_AMMO: u32 = 30;

/// Extra capacity per persistent ammunition level.
pub const AMMO_PER_LEVEL: u32 = 10;

/// The player's movement speed, in stored units per second.
pub const PLAYER_SPEED: i64 = 150_000;

/// The player's hit points at spawn.
pub const PLAYER_HEALTH: i64 = 100_000;

/// Speed of a projectile, in stored units per second per unit of facing.
pub const PROJECTILE_SPEED_FACTOR: i64 = 400;

/// Lifetime of a projectile, in milliseconds.
pub const PROJECTILE_LIFETIME_MS: u64 = 2_000;

/// The cooldown after applying `level` persistent fire-rate upgrades: each
/// level takes the cooldown to nine tenths, never below one millisecond.
pub open spec fn decayed_fire_rate(level: nat) -> int
    decreases level,
{
    if level == 0 {
        FIRE_RATE_BASE_MS as int
    } else {
        let p = decayed_fire_rate((level - 1) as nat);
        if (p * 9) / 10 >= 1 {
            (p * 9) / 10
        } else {
            1
        }
    }
}

/// The decayed cooldown stays between one millisecond and the base.
pub proof fn lemma_decayed_fire_rate_bounds(level: nat)
    ensures
        1 <= decayed_fire_rate(level) <= FIRE_RATE_BASE_MS,
    decreases level,
{
    if level > 0 {
        lemma_decayed_fire_rate_bounds((level - 1) as nat);
    }
}

/// The weapon a freshly spawned player carries, given the persistent
/// upgrade levels.
pub open spec fn spawned_weapon(stats: GlobalPlayerStats) -> WeaponStats {
    let rate = decayed_fire_rate(stats.weapon_upgrade_level as nat) as u64;
    let ammo = (BASE_AMMO + stats.max_ammo_level * AMMO_PER_LEVEL) as u32;
    WeaponStats {
        fire_rate_ms: rate,
        timer: Timer {
            duration_ms: rate,
            elapsed_ms: 0,
            repeating: true,
            finished: false,
            just_finished: false,
        },
        current_ammo: ammo,
        max_ammo: ammo,
        current_weapon: WeaponType::Pistol,
    }
}

/// The player as spawned on entering play.
pub open spec fn spawned_player(stats: GlobalPlayerStats) -> Player {
    Player {
        pos: Vec2i { x: 0, y: 0 },
        facing: Vec2i { x: 1000, y: 0 },
        speed: Speed(PLAYER_SPEED),
        health: Health { current: PLAYER_HEALTH, max: PLAYER_HEALTH },
        weapon: spawned_weapon(stats),
    }
}

/// Create the player at the origin with stats derived from the persistent
/// upgrade levels: the cooldown decayed per weapon level, the capacity
/// raised per ammunition level.
pub fn spawn_player(world: &mut World, stats: &GlobalPlayerStats)
    requires
        BASE_AMMO + stats.max_ammo_level * AMMO_PER_LEVEL <= u32::MAX,
    ensures
        final(world).zombies@ == old(world).zombies@,
        final(world).projectiles@ == old(world).projectiles@,
        final(world).walls@ == old(world).walls@,
        final(world).player == Some(spawned_player(*stats)),
{
    let mut rate: u64 = FIRE_RATE_BASE_MS;
    let mut k: u32 = 0;
    while k < stats.weapon_upgrade_level
        invariant
            0 <= k <= stats.weapon_upgrade_level,
            rate == decayed_fire_rate(k as nat),
            1 <= rate <= FIRE_RATE_BASE_MS,
        decreases stats.weapon_upgrade_level - k,
    {
        let shortened = rate * 9 / 10;
        rate = if shortened >= 1 {
            shortened
        } else {
            1
        };
        k = k + 1;
        proof {
            lemma_decayed_fire_rate_bounds(k as nat);
        }
    }
    let ammo = BASE_AMMO + stats.max_ammo_level * AMMO_PER_LEVEL;
    world.player = Some(
        Player {
            pos: Vec2i { x: 0, y: 0 },
            facing: Vec2i { x: 1000, y: 0 },
            speed: Speed(PLAYER_SPEED),
            health: Health { current: PLAYER_HEALTH, max: PLAYER_HEALTH },
            weapon: WeaponStats {
                fire_rate_ms: rate,
                timer: Timer::new(rate, true),
                current_ammo: ammo,
                max_ammo: ammo,
                current_weapon: WeaponType::Pistol,
            },
        },
    );
}

/// The weapon slot selected by the sampled keys: later slots override
/// earlier ones, and a locked slot cannot be selected.
pub open spec fn selected_weapon(
    w: WeaponType,
    stats: GlobalPlayerStats,
    slot1: bool,
    slot2: bool,
    slot3: bool,
) -> WeaponType {
    if slot3 && stats.unlocked_rifle {
        WeaponType::Rifle
    } else if slot2 && stats.unlocked_shotgun {
        WeaponType::Shotgun
    } else if slot1 {
        WeaponType::Pistol
    } else {
        w
    }
}

/// Switch the player's weapon according to the sampled slot keys, gated by
/// the persistent unlocks. Does nothing when no player is present.
pub fn weapon_switching(
    world: &mut World,
    stats: &GlobalPlayerStats,
    slot1: bool,
    slot2: bool,
    slot3: bool,
)
    ensures
        final(world).zombies@ == old(world).zombies@,
        final(world).projectiles@ == old(world).projectiles@,
        final(world).walls@ == old(world).walls@,
        old(world).player is None ==> final(world).player is None,
        old(world).player matches Some(p) ==> final(world).player == Some(
            Player {
                weapon: WeaponStats {
                    current_weapon: selected_weapon(
                        p.weapon.current_weapon,
                        *stats,
                        slot1,
                        slot2,
                        slot3,
                    ),
                    ..p.weapon
                },
                ..p
            },
        ),
{
    let player = match &world.player {
        None => { return; },
        Some(p) => *p,
    };
    let mut weapon = player.weapon;
    if slot1 {
        weapon.current_weapon = WeaponType::Pistol;
    }
    if slot2 && stats.unlocked_shotgun {
        weapon.current_weapon = WeaponType::Shotgun;
    }
    if slot3 && stats.unlocked_rifle {
        weapon.current_weapon = WeaponType::Rifle;
    }
    world.player = Some(Player { weapon, ..player });
}

/// The facing direction toward `target` from `from`, as a unit vector
/// scaled by 1000. Aiming at the exact own position faces along the
/// positive x axis.
pub open spec fn aim_facing(from: Vec2i, target: Vec2i) -> Vec2i {
    let dx = target.x - from.x;
    let dy = target.y - from.y;
    let dist = sqrt_floor((dx * dx + dy * dy) as nat);
    if dist == 0 {
        Vec2i { x: 1000, y: 0 }
    } else {
        Vec2i {
            x: scale_spec(dx, 1000, dist as int) as i64,
            y: scale_spec(dy, 1000, dist as int) as i64,
        }
    }
}

/// The facing vector components stay within the unit scale.
pub proof fn lemma_aim_facing_bounds(from: Vec2i, target: Vec2i)
    ensures
        -1000 <= aim_facing(from, target).x <= 1000,
        -1000 <= aim_facing(from, target).y <= 1000,
{
    let dx = target.x - from.x;
    let dy = target.y - from.y;
    let dist = sqrt_floor((dx * dx + dy * dy) as nat);
    if dist != 0 {
        lemma_component_le_sqrt(dx as int, dy as int);
        lemma_component_le_sqrt(dy as int, dx as int);
        assert((dy * dy + dx * dx) == (dx * dx + dy * dy));
        lemma_scale_ratio_bound(dx as int, 1000, dist as int, 1);
        lemma_scale_ratio_bound(dy as int, 1000, dist as int, 1);
    }
}

/// Turn the player toward the aimed-at world position. Does nothing when
/// no player is present.
pub fn player_aim(world: &mut World, target: Vec2i)
    requires
        old(world).player matches Some(p) ==> pos_within(p.pos, 8 * POS_LIMIT as int),
        pos_within(target, 8 * POS_LIMIT as int),
    ensures
        final(world).zombies@ == old(world).zombies@,
        final(world).projectiles@ == old(world).projectiles@,
        final(world).walls@ == old(world).walls@,
        old(world).player is None ==> final(world).player is None,
        old(world).player matches Some(p) ==> final(world).player == Some(
            Player { facing: aim_facing(p.pos, target), ..p },
        ),
{
    let player = match &world.player {
        None => { return; },
        Some(p) => *p,
    };
    let dxw: i128 = target.x as i128 - player.pos.x as i128;
    let dyw: i128 = target.y as i128 - player.pos.y as i128;
    proof {
        let lim = 16 * POS_LIMIT as int;
        assert(dxw * dxw <= lim * lim) by (nonlinear_arith)
            requires -lim <= dxw <= lim;
        assert(dyw * dyw <= lim * lim) by (nonlinear_arith)
            requires -lim <= dyw <= lim;
        assert(0 <= dxw * dxw && 0 <= dyw * dyw) by (nonlinear_arith);
    }
    let dsq: i128 = dxw * dxw + dyw * dyw;
    let dist_u: u128 = isqrt(dsq as u128);
    let facing: Vec2i;
    if dist_u == 0 {
        facing = Vec2i { x: 1000, y: 0 };
    } else {
        proof {
            assert(dist_u <= 24_000_000_000_000u128) by (nonlinear_arith)
                requires
                    dist_u * dist_u <= dsq,
                    0 <= dsq <= 2 * (16 * POS_LIMIT as int) * (16 * POS_LIMIT as int);
            lemma_component_le_sqrt(dxw as int, dyw as int);
            lemma_component_le_sqrt(dyw as int, dxw as int);
            assert((dyw * dyw + dxw * dxw) == (dxw * dxw + dyw * dyw));
        }
        let dx64: i64 = dxw as i64;
        let dy64: i64 = dyw as i64;
        proof {
            let d = dist_u as int;
            let mx = if dx64 as int >= 0 { dx64 as int } else { -(dx64 as int) };
            let my = if dy64 as int >= 0 { dy64 as int } else { -(dy64 as int) };
            assert(mx <= d && my <= d);
            assert(mx * 1000 <= d * 1000 && my * 1000 <= d * 1000) by (nonlinear_arith)
                requires 0 <= mx <= d, 0 <= my <= d;
            assert(d * 1000 <= d * i64::MAX) by (nonlinear_arith)
                requires 1 <= d;
            lemma_scale_ratio_bound(dx64 as int, 1000, d, 1);
            lemma_scale_ratio_bound(dy64 as int, 1000, d, 1);
        }
        let fx = scale(dx64, 1000, dist_u as u64);
        let fy = scale(dy64, 1000, dist_u as u64);
        facing = Vec2i { x: fx, y: fy };
        proof {
            assert(facing == aim_facing(player.pos, target));
        }
    }
    world.player = Some(Player { facing, ..player });
}

/// The weapon's cooldown timer right after a shot: reset, with its period
/// set to the current cooldown.
pub open spec fn fresh_cooldown(w: WeaponStats) -> Timer {
    Timer {
        duration_ms: w.fire_rate_ms,
        elapsed_ms: 0,
        repeating: true,
        finished: false,
        just_finished: false,
    }
}

/// The projectile fired by the player `p`.
pub open spec fn fired_projectile(p: Player) -> Projectile {
    Projectile {
        pos: p.pos,
        velocity: Vec2i {
            x: (p.facing.x * PROJECTILE_SPEED_FACTOR) as i64,
            y: (p.facing.y * PROJECTILE_SPEED_FACTOR) as i64,
        },
        lifetime: Timer {
            duration_ms: PROJECTILE_LIFETIME_MS,
            elapsed_ms: 0,
            repeating: false,
            finished: false,
            just_finished: false,
        },
        damage: weapon_damage_spec(p.weapon.current_weapon),
    }
}

/// Advance the weapon cooldown, and fire while the trigger is held: when
/// the cooldown has elapsed and ammunition remains, one projectile leaves
/// along the facing direction, one round is spent, and the cooldown timer
/// restarts with the current fire rate. Does nothing when no player is
/// present.
pub fn player_shoot(world: &mut World, fire_held: bool, dt: u64)
    requires
        old(world).player matches Some(p) ==> {
            &&& weapon_wf(p.weapon)
            &&& p.weapon.timer.elapsed_ms <= 1_000_000_000
            &&& p.weapon.fire_rate_ms <= 1_000_000_000
            &&& -1000 <= p.facing.x <= 1000
            &&& -1000 <= p.facing.y <= 1000
        },
        dt <= DT_LIMIT,
    ensures
        final(world).zombies@ == old(world).zombies@,
        final(world).walls@ == old(world).walls@,
        old(world).player is None ==> final(world).player is None && final(world).projectiles@
            == old(world).projectiles@,
        old(world).player matches Some(p) ==> ({
            let t = timer_after_tick(p.weapon.timer, dt);
            if fire_held && t.finished && p.weapon.current_ammo > 0 {
                &&& final(world).projectiles@ == old(world).projectiles@.push(fired_projectile(p))
                &&& final(world).player == Some(
                    Player {
                        weapon: WeaponStats {
                            timer: fresh_cooldown(p.weapon),
                            current_ammo: (p.weapon.current_ammo - 1) as u32,
                            ..p.weapon
                        },
                        ..p
                    },
                )
            } else {
                &&& final(world).projectiles@ == old(world).projectiles@
                &&& final(world).player == Some(
                    Player { weapon: WeaponStats { timer: t, ..p.weapon }, ..p },
                )
            }
        }),
{
    let player = match &world.player {
        None => { return; },
        Some(p) => *p,
    };
    let mut weapon = player.weapon;
    weapon.timer.tick(dt);
    if fire_held && weapon.timer.finished && weapon.current_ammo > 0 {
        let damage = weapon_damage(weapon.current_weapon);
        let projectile = Projectile {
            pos: player.pos,
            velocity: Vec2i {
                x: player.facing.x * PROJECTILE_SPEED_FACTOR,
                y: player.facing.y * PROJECTILE_SPEED_FACTOR,
            },
            lifetime: Timer::new(PROJECTILE_LIFETIME_MS, false),
            damage,
        };
        world.projectiles.push(projectile);
        weapon.current_ammo = weapon.current_ammo - 1;
        weapon.timer.reset();
        let rate = weapon.fire_rate_ms;
        weapon.timer.set_duration(rate);
        weapon.timer.reset();
    }
    world.player = Some(Player { weapon, ..player });
}

} // verus!
