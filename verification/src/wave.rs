//! The wave director: a spawning state machine evaluated once per tick
//! while a run is playing.
//!
//! A wave is cleared exactly when no zombies remain to spawn and no live
//! zombie exists. Clearing the final wave of the selected difficulty
//! requests the win transition; clearing an earlier wave advances the wave
//! counter and refills the spawn budget. Independently, a repeating spawn
//! timer materializes a difficulty-dependent batch of zombies each time it
//! fires, never exceeding the remaining budget, at uniformly random arena
//! positions.

use vstd::prelude::*;
use crate::components::{DT_LIMIT, Health, Zombie, zombie_wf};
use crate::geom::Vec2i;
use crate::settings::{Difficulty, max_waves_spec, spawn_count_spec};
use crate::timer::{Timer, timer_after_tick, timer_wf};
use crate::world::World;

verus! {

/// Half-extent of the spawn area on the x axis.
pub const ARENA_X: i64 = 400_000;

/// Half-extent of the spawn area on the y axis.
pub const ARENA_Y: i64 = 300_000;

/// Milliseconds between spawn pulses.
pub const SPAWN_INTERVAL_MS: u64 = 2_000;

/// The point lies in the random spawn area.
pub open spec fn in_arena(p: Vec2i) -> bool {
    -ARENA_X <= p.x < ARENA_X && -ARENA_Y <= p.y < ARENA_Y
}

/// State of the wave director, reset at the start of each run.
#[derive(Clone, Copy, PartialEq, Eq, Structural, Debug)]
pub struct WaveState {
    pub current_wave: u32,
    /// Zombies budgeted for this wave but not yet materialized.
    pub zombies_remaining: u32,
    pub spawn_timer: Timer,
}

pub open spec fn wave_wf(w: WaveState) -> bool {
    &&& timer_wf(w.spawn_timer)
    &&& w.spawn_timer.repeating
    &&& w.spawn_timer.elapsed_ms <= w.spawn_timer.duration_ms <= 1_000_000_000
    &&& w.current_wave >= 1
}

impl WaveState {
    /// The state a fresh run starts from.
    pub fn new() -> (w: WaveState)
        ensures
            w.current_wave == 1,
            w.zombies_remaining == 5,
            w.spawn_timer == Timer::spec_fresh_spawn_timer(),
            wave_wf(w),
    {
        WaveState {
            current_wave: 1,
            zombies_remaining: 5,
            spawn_timer: Timer::new(SPAWN_INTERVAL_MS, true),
        }
    }
}

impl Timer {
    /// The spawn timer as the director creates it.
    pub open spec fn spec_fresh_spawn_timer() -> Timer {
        Timer {
            duration_ms: SPAWN_INTERVAL_MS,
            elapsed_ms: 0,
            repeating: true,
            finished: false,
            just_finished: false,
        }
    }
}

/// Extent of a zombie spawned in the given wave.
pub open spec fn tier_size(wave: u32) -> i64 {
    if wave == 1 {
        10_000
    } else if wave == 2 {
        20_000
    } else {
        30_000
    }
}

/// Hit points of a zombie spawned in the given wave.
pub open spec fn tier_hp(wave: u32) -> i64 {
    if wave == 1 {
        10_000
    } else if wave == 2 {
        20_000
    } else {
        40_000
    }
}

/// Bounty of a zombie spawned in the given wave.
pub open spec fn tier_reward(wave: u32) -> u32 {
    if wave == 1 {
        10
    } else if wave == 2 {
        20
    } else {
        30
    }
}

/// The zombie the director spawns at `pos` during `wave`.
pub open spec fn tier_zombie(wave: u32, pos: Vec2i) -> Zombie {
    Zombie {
        pos,
        size: tier_size(wave),
        health: Health { current: tier_hp(wave), max: tier_hp(wave) },
        money_reward: tier_reward(wave),
    }
}

/// The wave is cleared: nothing left to spawn and nothing left alive.
pub open spec fn wave_cleared(w: WaveState, zombie_count: int) -> bool {
    w.zombies_remaining == 0 && zombie_count == 0
}

/// The wave counters after advancing past a cleared, non-final wave.
pub open spec fn next_wave(w: WaveState) -> WaveState {
    WaveState {
        current_wave: (w.current_wave + 1) as u32,
        zombies_remaining: (5 + (w.current_wave + 1) * 2) as u32,
        ..w
    }
}

/// Size of the spawn pulse: the difficulty's batch, capped by the budget.
pub open spec fn spawn_batch(d: Difficulty, remaining: u32) -> u32 {
    if spawn_count_spec(d) <= remaining {
        spawn_count_spec(d)
    } else {
        remaining
    }
}

/// Append the zombie of the current wave tier at the given position.
pub fn spawn_zombie_at(world: &mut World, wave: u32, pos: Vec2i)
    ensures
        final(world).player == old(world).player,
        final(world).projectiles@ == old(world).projectiles@,
        final(world).walls@ == old(world).walls@,
        final(world).zombies@ == old(world).zombies@.push(tier_zombie(wave, pos)),
{
    let size = if wave == 1 {
        10_000
    } else if wave == 2 {
        20_000
    } else {
        30_000
    };
    let hp: i64 = if wave == 1 {
        10_000
    } else if wave == 2 {
        20_000
    } else {
        40_000
    };
    let reward: u32 = if wave == 1 {
        10
    } else if wave == 2 {
        20
    } else {
        30
    };
    world.zombies.push(
        Zombie { pos, size, health: Health { current: hp, max: hp }, money_reward: reward },
    );
}

/// Relies on rand::random_range: returns a uniformly random value inside
/// the given half-open range, and panics only when the range is empty.
#[verifier::external_body]
fn random_coord(lo: i64, hi: i64) -> (r: i64)
    requires
        lo < hi,
    ensures
        lo <= r < hi,
{
    rand::random_range(lo..hi)
}

/// Append one zombie of the current wave tier at a uniformly random
/// position within the arena bounds.
pub fn spawn_random_zombie(world: &mut World, wave: u32)
    ensures
        final(world).player == old(world).player,
        final(world).projectiles@ == old(world).projectiles@,
        final(world).walls@ == old(world).walls@,
        final(world).zombies@.len() == old(world).zombies@.len() + 1,
        forall|i: int|
            0 <= i < old(world).zombies@.len() ==> final(world).zombies@[i] == old(
                world,
            ).zombies@[i],
        ({
            let z = final(world).zombies@.last();
            z == tier_zombie(wave, z.pos) && in_arena(z.pos)
        }),
{
    let x = random_coord(-ARENA_X, ARENA_X);
    let y = random_coord(-ARENA_Y, ARENA_Y);
    spawn_zombie_at(world, wave, Vec2i { x, y });
}

/// One evaluation of the wave director with the spawn positions given by
/// the caller: first the clear check (which may request the win or advance
/// the wave), then the spawn pulse. Returns whether the win transition is
/// requested, which happens exactly when the wave is cleared and the
/// current wave has reached the difficulty's last wave.
pub fn wave_manager_with_positions(
    world: &mut World,
    wave: &mut WaveState,
    difficulty: Difficulty,
    dt: u64,
    positions: &Vec<Vec2i>,
) -> (win: bool)
    requires
        wave_wf(*old(wave)),
        dt <= DT_LIMIT,
        positions@.len() >= 3,
    ensures
        final(world).player == old(world).player,
        final(world).projectiles@ == old(world).projectiles@,
        final(world).walls@ == old(world).walls@,
        win == (wave_cleared(*old(wave), old(world).zombies@.len() as int) && old(
            wave,
        ).current_wave >= max_waves_spec(difficulty)),
        win ==> *final(wave) == *old(wave) && final(world).zombies@ == old(world).zombies@,
        !win ==> ({
            let w1 = if wave_cleared(*old(wave), old(world).zombies@.len() as int) {
                next_wave(*old(wave))
            } else {
                *old(wave)
            };
            let t = timer_after_tick(w1.spawn_timer, dt);
            let n = if t.just_finished && w1.zombies_remaining > 0 {
                spawn_batch(difficulty, w1.zombies_remaining)
            } else {
                0
            };
            &&& *final(wave) == WaveState {
                spawn_timer: t,
                zombies_remaining: (w1.zombies_remaining - n) as u32,
                ..w1
            }
            &&& final(world).zombies@.len() == old(world).zombies@.len() + n
            &&& (forall|i: int|
                0 <= i < old(world).zombies@.len() ==> final(world).zombies@[i] == old(
                    world,
                ).zombies@[i])
            &&& (forall|i: int|
                old(world).zombies@.len() <= i < final(world).zombies@.len()
                    ==> final(world).zombies@[i] == tier_zombie(
                    w1.current_wave,
                    positions@[i - old(world).zombies@.len()],
                ))
        }),
        wave_wf(*final(wave)),
{
    let cleared = wave.zombies_remaining == 0 && world.zombies.len() == 0;
    if cleared {
        if wave.current_wave >= difficulty.max_waves() {
            return true;
        }
        wave.current_wave = wave.current_wave + 1;
        wave.zombies_remaining = 5 + wave.current_wave * 2;
    }
    wave.spawn_timer.tick(dt);
    if wave.spawn_timer.just_finished && wave.zombies_remaining > 0 {
        let sc = difficulty.spawn_count();
        let n = if sc <= wave.zombies_remaining {
            sc
        } else {
            wave.zombies_remaining
        };
        let ghost base = world.zombies@.len() as int;
        let ghost cw = wave.current_wave;
        let mut k: u32 = 0;
        while k < n
            invariant
                0 <= k <= n <= 3,
                n <= positions@.len(),
                world.zombies@.len() == base + k,
                base >= 0,
                cw == wave.current_wave,
                world.player == old(world).player,
                world.projectiles@ == old(world).projectiles@,
                world.walls@ == old(world).walls@,
                forall|i: int| 0 <= i < base ==> world.zombies@[i] == old(world).zombies@[i],
                forall|i: int|
                    base <= i < world.zombies@.len() ==> world.zombies@[i] == tier_zombie(
                        cw,
                        positions@[i - base],
                    ),
            decreases n - k,
        {
            let pos = positions[k as usize];
            spawn_zombie_at(world, wave.current_wave, pos);
            k = k + 1;
        }
        wave.zombies_remaining = wave.zombies_remaining - n;
    }
    false
}

/// One evaluation of the wave director, drawing spawn positions uniformly
/// at random within the arena. The wave bookkeeping and the win decision
/// are exactly those of `wave_manager_with_positions`; each spawned zombie
/// carries the stats of the current wave tier and some position inside the
/// arena.
pub fn wave_manager(
    world: &mut World,
    wave: &mut WaveState,
    difficulty: Difficulty,
    dt: u64,
) -> (win: bool)
    requires
        wave_wf(*old(wave)),
        dt <= DT_LIMIT,
    ensures
        final(world).player == old(world).player,
        final(world).projectiles@ == old(world).projectiles@,
        final(world).walls@ == old(world).walls@,
        win == (wave_cleared(*old(wave), old(world).zombies@.len() as int) && old(
            wave,
        ).current_wave >= max_waves_spec(difficulty)),
        win ==> *final(wave) == *old(wave) && final(world).zombies@ == old(world).zombies@,
        !win ==> ({
            let w1 = if wave_cleared(*old(wave), old(world).zombies@.len() as int) {
                next_wave(*old(wave))
            } else {
                *old(wave)
            };
            let t = timer_after_tick(w1.spawn_timer, dt);
            let n = if t.just_finished && w1.zombies_remaining > 0 {
                spawn_batch(difficulty, w1.zombies_remaining)
            } else {
                0
            };
            &&& *final(wave) == WaveState {
                spawn_timer: t,
                zombies_remaining: (w1.zombies_remaining - n) as u32,
                ..w1
            }
            &&& final(world).zombies@.len() == old(world).zombies@.len() + n
            &&& (forall|i: int|
                0 <= i < old(world).zombies@.len() ==> final(world).zombies@[i] == old(
                    world,
                ).zombies@[i])
            &&& (forall|i: int|
                old(world).zombies@.len() <= i < final(world).zombies@.len() ==> {
                    let z = #[trigger] final(world).zombies@[i];
                    z == tier_zombie(w1.current_wave, z.pos) && in_arena(z.pos)
                })
        }),
        wave_wf(*final(wave)),
{
    let mut positions: Vec<Vec2i> = Vec::new();
    let mut k: u32 = 0;
    while k < 3
        invariant
            0 <= k <= 3,
            positions@.len() == k,
            forall|i: int| 0 <= i < k ==> in_arena(#[trigger] positions@[i]),
        decreases 3 - k,
    {
        let x = random_coord(-ARENA_X, ARENA_X);
        let y = random_coord(-ARENA_Y, ARENA_Y);
        positions.push(Vec2i { x, y });
        k = k + 1;
    }
    wave_manager_with_positions(world, wave, difficulty, dt, &positions)
}

} // verus!
