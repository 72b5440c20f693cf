//! One simulation tick: the host samples the inputs and the elapsed time
//! and calls `tick` once per frame.
//!
//! Order inside a playing tick: menu and pause keys first (a paused tick
//! runs no gameplay), then weapon selection and aiming, then movement with
//! collision rejection, then combat resolution (projectile flight, expiry,
//! impacts, contact damage), then firing and the shop, then the wave
//! director, and the session transition check last, so that a loss
//! reported by combat and a win reported by the director take effect at
//! the end of the same tick.

use vstd::prelude::*;
use crate::combat::{
    CONTACT_DAMAGE_PER_MS, cleanup_projectiles, cleanup_spec, contact_count,
    lemma_cleanup_props, lemma_contact_count_bounds, lemma_projectile_moved_within,
    lemma_resolve_all_props, lemma_resolve_money_bounded, lemma_resolve_projectiles_wf,
    lemma_sum_rewards_pointwise, projectile_collision, projectile_moved, projectile_movement,
    resolve_all, sum_rewards, zombie_damage_player,
};
use crate::components::{DT_LIMIT, POS_LIMIT, Projectile, STEP_LIMIT, Zombie, player_wf,
    pos_within, projectile_wf, zombie_wf};
use crate::geom::Vec2i;
use crate::movement::{
    lemma_player_move_dest_within, lemma_zombie_chase_dest_within, player_move_dest,
    player_movement, zombie_chase, zombie_chase_dest,
};
use crate::player::{lemma_aim_facing_bounds, player_aim, player_shoot, weapon_switching};
use crate::session::{Game, GameState, game_unchanged, game_wf, level_cleared, restart_game,
    restarted_wave, toggle_pause, world_unchanged};
use crate::shop::{FIRE_RATE_COST_STEP, lemma_decayed_rate_le, shop_input};
use crate::progression::GlobalPlayerStats;
use crate::settings::{Difficulty, max_waves_spec};
use crate::timer::timer_after_tick;
use crate::wave::{wave_cleared, wave_manager};
use crate::world::{projectiles_wf, world_pos_bounded, world_wf};

verus! {

/// The inputs sampled for one tick.
#[derive(Clone, Copy, PartialEq, Eq, Structural, Debug)]
pub struct TickInput {
    pub up: bool,
    pub down: bool,
    pub left: bool,
    pub right: bool,
    /// World position under the cursor, if the host resolved one.
    pub aim_target: Option<Vec2i>,
    pub fire_held: bool,
    pub slot1: bool,
    pub slot2: bool,
    pub slot3: bool,
    pub buy_pressed: bool,
    pub pause_pressed: bool,
    pub escape_pressed: bool,
    pub restart_pressed: bool,
}

/// Where the movement phase puts a player that was present at the start
/// of the tick.
pub open spec fn moved_player_pos(g: Game, input: TickInput, dt: u64) -> Vec2i {
    player_move_dest(
        g.world.player->Some_0,
        g.world.walls@,
        input.up,
        input.down,
        input.left,
        input.right,
        dt as int,
    )
}

/// The zombies after the pursuit phase of the tick.
pub open spec fn chased_zombies(g: Game, input: TickInput, dt: u64) -> Seq<Zombie> {
    if g.world.player is Some {
        g.world.zombies@.map_values(
            |z: Zombie| Zombie {
                pos: zombie_chase_dest(z, moved_player_pos(g, input, dt), g.world.walls@, dt as int),
                ..z
            },
        )
    } else {
        g.world.zombies@
    }
}

/// The projectiles still flying after the flight and expiry phases.
pub open spec fn surviving_projectiles(g: Game, dt: u64) -> Seq<Projectile> {
    cleanup_spec(
        g.world.projectiles@.map_values(|p: Projectile| projectile_moved(p, dt as int)),
        dt,
    )
}

/// The zombies left standing after impact resolution.
pub open spec fn zombies_after_combat(g: Game, input: TickInput, dt: u64) -> Seq<Zombie> {
    resolve_all(surviving_projectiles(g, dt), chased_zombies(g, input, dt), g.world.walls@).1
}

/// The run is lost this tick: contact damage from the zombies left after
/// combat drives the player's health to zero or below.
pub open spec fn playing_lost(g: Game, input: TickInput, dt: u64) -> bool {
    g.world.player matches Some(p) && p.health.current - contact_count(
        zombies_after_combat(g, input, dt),
        moved_player_pos(g, input, dt),
    ) * CONTACT_DAMAGE_PER_MS * dt <= 0
}

/// The director reports a clear of the final wave this tick: nothing left
/// to spawn, nothing left standing after combat, and the current wave has
/// reached the selected difficulty's last wave.
pub open spec fn playing_cleared_final_wave(g: Game, input: TickInput, dt: u64) -> bool {
    &&& wave_cleared(g.wave, zombies_after_combat(g, input, dt).len() as int)
    &&& g.wave.current_wave >= max_waves_spec(g.settings.difficulty->Some_0)
}

/// Advance the whole game by one tick of `dt` milliseconds.
pub fn tick(game: &mut Game, input: TickInput, dt: u64)
    requires
        game_wf(*old(game)),
        world_pos_bounded(old(game).world, POS_LIMIT as int),
        dt <= DT_LIMIT,
        old(game).world.zombies@.len() <= 1_000_000,
        old(game).wallet.money + sum_rewards(old(game).world.zombies@) <= u32::MAX,
        old(game).upgrade_cost.fire_rate_cost + FIRE_RATE_COST_STEP <= u32::MAX,
        old(game).stats.total_money + old(game).wallet.money <= u32::MAX,
        input.aim_target matches Some(t) ==> pos_within(t, 8 * POS_LIMIT as int),
    ensures
        game_wf(*final(game)),
        world_pos_bounded(final(game).world, POS_LIMIT as int + STEP_LIMIT as int),
        final(game).settings == old(game).settings,
        old(game).state == GameState::Dashboard ==> game_unchanged(*final(game), *old(game)),
        (old(game).state == GameState::GameOver || old(game).state == GameState::Win) ==> (
        if input.restart_pressed {
            &&& final(game).stats == (GlobalPlayerStats {
                total_money: (old(game).stats.total_money + old(game).wallet.money) as u32,
                ..old(game).stats
            })
            &&& final(game).wallet.money == 0
            &&& final(game).wave == restarted_wave()
            &&& final(game).state == GameState::Dashboard
            &&& level_cleared(final(game).world, old(game).world)
        } else {
            game_unchanged(*final(game), *old(game))
        }),
        old(game).state == GameState::Paused ==> (if input.escape_pressed {
            final(game).state == GameState::Dashboard && level_cleared(
                final(game).world,
                old(game).world,
            )
        } else if input.pause_pressed {
            final(game).state == GameState::Playing && world_unchanged(
                final(game).world,
                old(game).world,
            )
        } else {
            game_unchanged(*final(game), *old(game))
        }),
        old(game).state == GameState::Playing ==> (if input.escape_pressed {
            final(game).state == GameState::Dashboard && level_cleared(
                final(game).world,
                old(game).world,
            )
        } else if input.pause_pressed {
            final(game).state == GameState::Paused && world_unchanged(
                final(game).world,
                old(game).world,
            )
        } else {
            &&& (final(game).state == GameState::Playing || final(game).state
                == GameState::GameOver || final(game).state == GameState::Win)
            &&& final(game).stats == old(game).stats
            &&& final(game).world.walls@ == old(game).world.walls@
            &&& (final(game).state == GameState::GameOver ==> final(game).world.player is None)
            &&& (final(game).state == GameState::Win ==> final(game).world.zombies@.len() == 0
                && final(game).wave == old(game).wave && final(game).wave.zombies_remaining == 0)
            &&& (final(game).state == GameState::Playing ==> final(game).wave.spawn_timer
                == timer_after_tick(old(game).wave.spawn_timer, dt))
            &&& (final(game).state == GameState::GameOver <==> playing_lost(
                *old(game),
                input,
                dt,
            ))
            &&& (final(game).state == GameState::Win <==> (!playing_lost(*old(game), input, dt)
                && playing_cleared_final_wave(*old(game), input, dt)))
            &&& ((final(game).state == GameState::Playing && old(game).world.player is Some)
                ==> (final(game).world.player is Some))
            &&& (old(game).world.player matches Some(p) ==> (final(game).world.player
                matches Some(q) ==> q.pos == player_move_dest(
                p,
                old(game).world.walls@,
                input.up,
                input.down,
                input.left,
                input.right,
                dt as int,
            )))
        }),
{
    match game.state {
        GameState::Dashboard => {
            return;
        },
        GameState::GameOver | GameState::Win => {
            restart_game(game, input.restart_pressed);
            return;
        },
        GameState::Paused => {
            toggle_pause(game, input.pause_pressed, input.escape_pressed);
            return;
        },
        GameState::Playing => {},
    }
    if input.escape_pressed || input.pause_pressed {
        toggle_pause(game, input.pause_pressed, input.escape_pressed);
        return;
    }
    run_playing_systems(game, input, dt);
}

/// The gameplay pipeline of one playing tick, in order: weapon selection,
/// aiming, movement, pursuit, projectile flight and expiry, impacts,
/// contact damage, firing, the shop, the wave director, and the session
/// transition check.
#[verifier::rlimit(100)]
#[verifier::spinoff_prover]
fn run_playing_systems(game: &mut Game, input: TickInput, dt: u64)
    requires
        game_wf(*old(game)),
        old(game).state == GameState::Playing,
        world_pos_bounded(old(game).world, POS_LIMIT as int),
        dt <= DT_LIMIT,
        old(game).world.zombies@.len() <= 1_000_000,
        old(game).wallet.money + sum_rewards(old(game).world.zombies@) <= u32::MAX,
        old(game).upgrade_cost.fire_rate_cost + FIRE_RATE_COST_STEP <= u32::MAX,
        input.aim_target matches Some(t) ==> pos_within(t, 8 * POS_LIMIT as int),
    ensures
        game_wf(*final(game)),
        world_pos_bounded(final(game).world, POS_LIMIT as int + STEP_LIMIT as int),
        final(game).settings == old(game).settings,
        final(game).stats == old(game).stats,
        final(game).world.walls@ == old(game).world.walls@,
        final(game).state == GameState::Playing || final(game).state == GameState::GameOver
            || final(game).state == GameState::Win,
        final(game).state == GameState::GameOver ==> (final(game).world.player is None),
        final(game).state == GameState::Win ==> final(game).world.zombies@.len() == 0
            && final(game).wave == old(game).wave && final(game).wave.zombies_remaining == 0,
        final(game).state == GameState::Playing ==> final(game).wave.spawn_timer
            == timer_after_tick(old(game).wave.spawn_timer, dt),
        final(game).state == GameState::GameOver <==> playing_lost(*old(game), input, dt),
        final(game).state == GameState::Win <==> (!playing_lost(*old(game), input, dt)
            && playing_cleared_final_wave(*old(game), input, dt)),
        (final(game).state == GameState::Playing && old(game).world.player is Some) ==> (
        final(game).world.player is Some),
        old(game).world.player matches Some(p) ==> (final(game).world.player matches Some(q)
            ==> q.pos == player_move_dest(
            p,
            old(game).world.walls@,
            input.up,
            input.down,
            input.left,
            input.right,
            dt as int,
        )),
{
    let difficulty = match &game.settings.difficulty {
        Some(d) => *d,
        None => {
            proof {
                assert(false);
            }
            Difficulty::Easy
        },
    };
    let ghost g0 = *game;

    run_input_phases(game, input, dt);
    let ghost w_chased_game = *game;

    let lost = run_combat_phases(game, dt);
    let ghost w_contact = game.world;

    player_shoot(&mut game.world, input.fire_held, dt);
    proof {
        if w_contact.player is Some {
            assert(player_wf(game.world.player->Some_0));
            assert(projectiles_wf(game.world.projectiles@));
        }
    }
    let ghost w_shot = game.world;

    shop_input(&mut game.world, &mut game.wallet, &mut game.upgrade_cost, input.buy_pressed);
    proof {
        if w_shot.player is Some {
            lemma_decayed_rate_le(w_shot.player->Some_0.weapon.fire_rate_ms as int);
            assert(player_wf(game.world.player->Some_0));
        }
    }

    let win = wave_manager(&mut game.world, &mut game.wave, difficulty, dt);

    proof {
        let b = POS_LIMIT as int + STEP_LIMIT as int;
        if game.world.player is Some {
            assert(pos_within(game.world.player->Some_0.pos, b));
        }
        assert forall|i: int| 0 <= i < game.world.zombies@.len() implies pos_within(
            (#[trigger] game.world.zombies@[i]).pos,
            b,
        ) by {}
        assert forall|i: int| 0 <= i < game.world.projectiles@.len() implies pos_within(
            (#[trigger] game.world.projectiles@[i]).pos,
            b,
        ) by {}
        assert(world_pos_bounded(game.world, b));
        if g0.world.player is Some && game.world.player is Some {
            assert(game.world.player->Some_0.pos == player_move_dest(
                g0.world.player->Some_0,
                g0.world.walls@,
                input.up,
                input.down,
                input.left,
                input.right,
                dt as int,
            ));
        }
    }
    proof {
        assert(w_chased_game.world.projectiles@ == g0.world.projectiles@);
        assert(surviving_projectiles(w_chased_game, dt) == surviving_projectiles(g0, dt));
        assert(w_contact.zombies@ == zombies_after_combat(g0, input, dt));
        assert(lost == playing_lost(g0, input, dt));
        assert(difficulty == g0.settings.difficulty->Some_0);
        assert(win == playing_cleared_final_wave(g0, input, dt));
    }
    if lost {
        game.state = GameState::GameOver;
    } else if win {
        game.state = GameState::Win;
    }
}

/// The input-driven phases of one playing tick, in order: weapon
/// selection, aiming, player movement, zombie pursuit.
#[verifier::rlimit(100)]
#[verifier::spinoff_prover]
fn run_input_phases(game: &mut Game, input: TickInput, dt: u64)
    requires
        world_wf(old(game).world),
        world_pos_bounded(old(game).world, POS_LIMIT as int),
        dt <= DT_LIMIT,
        input.aim_target matches Some(t) ==> pos_within(t, 8 * POS_LIMIT as int),
    ensures
        final(game).state == old(game).state,
        final(game).settings == old(game).settings,
        final(game).stats == old(game).stats,
        final(game).wallet == old(game).wallet,
        final(game).upgrade_cost == old(game).upgrade_cost,
        final(game).wave == old(game).wave,
        final(game).world.walls@ == old(game).world.walls@,
        final(game).world.projectiles@ == old(game).world.projectiles@,
        world_wf(final(game).world),
        final(game).world.zombies@ == chased_zombies(*old(game), input, dt),
        sum_rewards(final(game).world.zombies@) == sum_rewards(old(game).world.zombies@),
        final(game).world.zombies@.len() == old(game).world.zombies@.len(),
        forall|i: int|
            0 <= i < final(game).world.zombies@.len() ==> pos_within(
                (#[trigger] final(game).world.zombies@[i]).pos,
                POS_LIMIT as int + STEP_LIMIT as int,
            ),
        old(game).world.player is None ==> (final(game).world.player is None),
        old(game).world.player matches Some(p) ==> (final(game).world.player matches Some(q)
            && q.pos == moved_player_pos(*old(game), input, dt) && q.health == p.health
            && q.speed == p.speed && player_wf(q) && pos_within(
            q.pos,
            POS_LIMIT as int + STEP_LIMIT as int,
        )),
{
    let ghost g0 = *game;
    weapon_switching(&mut game.world, &game.stats, input.slot1, input.slot2, input.slot3);
    proof {
        if game.world.player is Some {
            assert(player_wf(game.world.player->Some_0));
        }
    }
    match input.aim_target {
        Some(t) => {
            player_aim(&mut game.world, t);
            proof {
                if g0.world.player is Some {
                    lemma_aim_facing_bounds(g0.world.player->Some_0.pos, t);
                }
            }
        },
        None => {},
    }
    let ghost w_aimed = game.world;
    proof {
        if w_aimed.player is Some {
            assert(player_wf(w_aimed.player->Some_0));
        }
    }

    player_movement(
        &mut game.world,
        input.up,
        input.down,
        input.left,
        input.right,
        dt,
    );
    proof {
        if w_aimed.player is Some {
            lemma_player_move_dest_within(
                w_aimed.player->Some_0,
                w_aimed.walls@,
                input.up,
                input.down,
                input.left,
                input.right,
                dt as int,
                POS_LIMIT as int,
            );
            assert(player_wf(game.world.player->Some_0));
            let p0 = g0.world.player->Some_0;
            let pa = w_aimed.player->Some_0;
            assert(pa.pos == p0.pos && pa.speed == p0.speed);
            assert(player_move_dest(
                pa,
                w_aimed.walls@,
                input.up,
                input.down,
                input.left,
                input.right,
                dt as int,
            ) == moved_player_pos(g0, input, dt));
        }
    }
    let ghost w_moved = game.world;

    zombie_chase(&mut game.world, dt);
    proof {
        if w_moved.player is Some {
            assert forall|i: int| 0 <= i < game.world.zombies@.len() implies zombie_wf(
                #[trigger] game.world.zombies@[i],
            ) && pos_within(game.world.zombies@[i].pos, POS_LIMIT as int + STEP_LIMIT as int) by {
                lemma_zombie_chase_dest_within(
                    w_moved.zombies@[i],
                    w_moved.player->Some_0.pos,
                    w_moved.walls@,
                    dt as int,
                    POS_LIMIT as int,
                );
            }
            assert(game.world.zombies@ =~= chased_zombies(g0, input, dt)) by {
                assert forall|i: int| 0 <= i < game.world.zombies@.len() implies
                    game.world.zombies@[i] == chased_zombies(g0, input, dt)[i] by {
                    assert(chased_zombies(g0, input, dt)[i] == (Zombie {
                        pos: zombie_chase_dest(
                            g0.world.zombies@[i],
                            moved_player_pos(g0, input, dt),
                            g0.world.walls@,
                            dt as int,
                        ),
                        ..g0.world.zombies@[i]
                    }));
                }
            }
        } else {
            assert(game.world.zombies@ == chased_zombies(g0, input, dt));
        }
        lemma_sum_rewards_pointwise(game.world.zombies@, g0.world.zombies@);
    }
}

/// The combat phases of one playing tick, in order: projectile flight,
/// lifetime expiry, impact resolution, contact damage. Returns whether
/// contact damage drove the player's health to zero or below.
#[verifier::rlimit(100)]
#[verifier::spinoff_prover]
fn run_combat_phases(game: &mut Game, dt: u64) -> (lost: bool)
    requires
        world_wf(old(game).world),
        dt <= DT_LIMIT,
        old(game).world.zombies@.len() <= 1_000_000,
        old(game).wallet.money + sum_rewards(old(game).world.zombies@) <= u32::MAX,
        old(game).world.player matches Some(p) ==> pos_within(
            p.pos,
            POS_LIMIT as int + STEP_LIMIT as int,
        ),
        forall|i: int|
            0 <= i < old(game).world.zombies@.len() ==> pos_within(
                (#[trigger] old(game).world.zombies@[i]).pos,
                POS_LIMIT as int + STEP_LIMIT as int,
            ),
        forall|i: int|
            0 <= i < old(game).world.projectiles@.len() ==> pos_within(
                (#[trigger] old(game).world.projectiles@[i]).pos,
                POS_LIMIT as int,
            ),
    ensures
        final(game).state == old(game).state,
        final(game).settings == old(game).settings,
        final(game).stats == old(game).stats,
        final(game).upgrade_cost == old(game).upgrade_cost,
        final(game).wave == old(game).wave,
        final(game).world.walls@ == old(game).world.walls@,
        world_wf(final(game).world),
        final(game).world.player is Some ==> pos_within(
            final(game).world.player->Some_0.pos,
            POS_LIMIT as int + STEP_LIMIT as int,
        ),
        forall|i: int|
            0 <= i < final(game).world.zombies@.len() ==> pos_within(
                (#[trigger] final(game).world.zombies@[i]).pos,
                POS_LIMIT as int + STEP_LIMIT as int,
            ),
        forall|i: int|
            0 <= i < final(game).world.projectiles@.len() ==> pos_within(
                (#[trigger] final(game).world.projectiles@[i]).pos,
                POS_LIMIT as int + STEP_LIMIT as int,
            ),
        final(game).world.zombies@ == resolve_all(
            surviving_projectiles(*old(game), dt),
            old(game).world.zombies@,
            old(game).world.walls@,
        ).1,
        final(game).world.projectiles@ == resolve_all(
            surviving_projectiles(*old(game), dt),
            old(game).world.zombies@,
            old(game).world.walls@,
        ).0,
        final(game).wallet.money == old(game).wallet.money + resolve_all(
            surviving_projectiles(*old(game), dt),
            old(game).world.zombies@,
            old(game).world.walls@,
        ).2,
        old(game).world.player is None ==> (final(game).world.player is None) && !lost,
        old(game).world.player matches Some(p) ==> ({
            let dmg = contact_count(final(game).world.zombies@, p.pos) * CONTACT_DAMAGE_PER_MS
                * dt;
            if p.health.current - dmg <= 0 {
                (final(game).world.player is None) && lost
            } else {
                &&& final(game).world.player == Some(
                    crate::components::Player {
                        health: crate::components::Health {
                            current: (p.health.current - dmg) as i64,
                            ..p.health
                        },
                        ..p
                    },
                )
                &&& !lost
            }
        }),
{
    let ghost w_in = game.world;
    projectile_movement(&mut game.world, dt);
    proof {
        assert forall|i: int| 0 <= i < game.world.projectiles@.len() implies projectile_wf(
            #[trigger] game.world.projectiles@[i],
        ) && pos_within(game.world.projectiles@[i].pos, POS_LIMIT as int + STEP_LIMIT as int) by {
            assert(projectile_wf(w_in.projectiles@[i]));
            lemma_projectile_moved_within(w_in.projectiles@[i], dt as int, POS_LIMIT as int);
        }
    }
    let ghost w_pmoved = game.world;

    cleanup_projectiles(&mut game.world, dt);
    proof {
        lemma_cleanup_props(
            w_pmoved.projectiles@,
            dt,
            POS_LIMIT as int + STEP_LIMIT as int,
        );
        assert(w_pmoved.projectiles@ =~= w_in.projectiles@.map_values(
            |p: Projectile| projectile_moved(p, dt as int),
        ));
        assert(game.world.projectiles@ == surviving_projectiles(*old(game), dt));
    }
    let ghost w_cleaned = game.world;

    proof {
        lemma_resolve_money_bounded(
            w_cleaned.projectiles@,
            w_cleaned.zombies@,
            w_cleaned.walls@,
            POS_LIMIT as int + STEP_LIMIT as int,
        );
    }
    projectile_collision(&mut game.world, &mut game.wallet);
    proof {
        lemma_resolve_all_props(
            w_cleaned.projectiles@,
            w_cleaned.zombies@,
            w_cleaned.walls@,
            POS_LIMIT as int + STEP_LIMIT as int,
        );
        lemma_resolve_projectiles_wf(
            w_cleaned.projectiles@,
            w_cleaned.zombies@,
            w_cleaned.walls@,
            POS_LIMIT as int + STEP_LIMIT as int,
        );
    }
    let ghost w_hit = game.world;

    let lost = zombie_damage_player(&mut game.world, dt);
    proof {
        lemma_contact_count_bounds(w_hit.zombies@, if w_hit.player is Some {
            w_hit.player->Some_0.pos
        } else {
            Vec2i { x: 0, y: 0 }
        }, 0);
        if game.world.player is Some {
            assert(player_wf(game.world.player->Some_0));
        }
    }
    lost
}

} // verus!
