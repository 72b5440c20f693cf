//! The session state machine: the top-level mode of the game and the
//! transitions between menu, play, pause and the two end screens, with
//! their side effects on the world and the ledgers.

use vstd::prelude::*;
use crate::components::Player;
use crate::player::{BASE_AMMO, AMMO_PER_LEVEL, spawn_player, spawned_player};
use crate::progression::GlobalPlayerStats;
use crate::settings::{Difficulty, GameSettings};
use crate::shop::{Wallet, WeaponUpgradeCost, upgrade_ammo_spec, upgrade_weapon_spec,
    unlock_rifle_spec, unlock_shotgun_spec, upgrade_ammo, upgrade_weapon, unlock_rifle,
    unlock_shotgun};
use crate::timer::Timer;
use crate::wave::{SPAWN_INTERVAL_MS, WaveState, wave_wf};
use crate::world::{World, world_wf};

verus! {

/// The top-level mode. The menu (dashboard) is the initial state; the end
/// screens return to it.
#[derive(Clone, Copy, PartialEq, Eq, Structural, Debug)]
pub enum GameState {
    Dashboard,
    Playing,
    Paused,
    GameOver,
    Win,
}

impl Default for GameState {
    fn default() -> (s: GameState)
        ensures
            s == GameState::Dashboard,
    {
        GameState::Dashboard
    }
}

/// The whole simulation: the session mode, the shared ledgers and the live
/// world, stepped by plain functions.
pub struct Game {
    pub state: GameState,
    pub settings: GameSettings,
    pub stats: GlobalPlayerStats,
    pub wallet: Wallet,
    pub upgrade_cost: WeaponUpgradeCost,
    pub wave: WaveState,
    pub world: World,
}

/// The master invariant: a well-formed world and wave state, and a
/// difficulty selected whenever a run is underway.
pub open spec fn game_wf(g: Game) -> bool {
    &&& world_wf(g.world)
    &&& wave_wf(g.wave)
    &&& ((g.state == GameState::Playing || g.state == GameState::Paused)
        ==> g.settings.difficulty is Some)
}

/// The two worlds hold the same entities.
pub open spec fn world_unchanged(a: World, b: World) -> bool {
    &&& a.player == b.player
    &&& a.zombies@ == b.zombies@
    &&& a.projectiles@ == b.projectiles@
    &&& a.walls@ == b.walls@
}

/// Nothing in the game differs.
pub open spec fn game_unchanged(a: Game, b: Game) -> bool {
    &&& a.state == b.state
    &&& a.settings == b.settings
    &&& a.stats == b.stats
    &&& a.wallet == b.wallet
    &&& a.upgrade_cost == b.upgrade_cost
    &&& a.wave == b.wave
    &&& world_unchanged(a.world, b.world)
}

/// The world after the level is cleared on returning to the menu: no
/// player, no zombies, no projectiles; the walls stand.
pub open spec fn level_cleared(a: World, b: World) -> bool {
    &&& a.player is None
    &&& a.zombies@ == Seq::<crate::components::Zombie>::empty()
    &&& a.projectiles@ == Seq::<crate::components::Projectile>::empty()
    &&& a.walls@ == b.walls@
}

/// The wave state a restarted run begins with.
pub open spec fn restarted_wave() -> WaveState {
    WaveState {
        current_wave: 1,
        zombies_remaining: 10,
        spawn_timer: Timer::spec_fresh_spawn_timer(),
    }
}

impl Game {
    /// A fresh session: on the menu, with empty ledgers, the first wave
    /// pending and an empty level.
    pub fn new() -> (g: Game)
        ensures
            g.state == GameState::Dashboard,
            (g.settings.difficulty is None),
            g.stats == (GlobalPlayerStats {
                total_money: 0u32,
                level: 0u32,
                weapon_upgrade_level: 0u32,
                max_ammo_level: 0u32,
                unlocked_shotgun: false,
                unlocked_rifle: false,
            }),
            g.wallet.money == 0,
            g.upgrade_cost.fire_rate_cost == 10,
            g.wave.current_wave == 1 && g.wave.zombies_remaining == 5,
            g.wave.spawn_timer == Timer::spec_fresh_spawn_timer(),
            (g.world.player is None),
            g.world.zombies@ == Seq::<crate::components::Zombie>::empty(),
            g.world.projectiles@ == Seq::<crate::components::Projectile>::empty(),
            g.world.walls@ == Seq::<crate::components::Wall>::empty(),
            game_wf(g),
    {
        Game {
            state: GameState::Dashboard,
            settings: GameSettings::default(),
            stats: GlobalPlayerStats::default(),
            wallet: Wallet::default(),
            upgrade_cost: WeaponUpgradeCost::default(),
            wave: WaveState::new(),
            world: World::new(),
        }
    }
}

/// Despawn the player, all zombies and all projectiles; the static level
/// stays. Runs on every return to the menu.
pub fn cleanup_level(world: &mut World)
    ensures
        level_cleared(*final(world), *old(world)),
{
    world.player = None;
    world.zombies.clear();
    world.projectiles.clear();
}

/// Populate the static level. The arena currently ships without obstacles,
/// so this adds no walls; a layout would push `Wall` values here.
pub fn spawn_level(world: &mut World)
    ensures
        world_unchanged(*final(world), *old(world)),
{
}

/// One interaction on the menu screen.
#[derive(Clone, Copy, PartialEq, Eq, Structural, Debug)]
pub enum DashboardAction {
    Play,
    UpgradeWeapon,
    UpgradeAmmo,
    UnlockShotgun,
    UnlockRifle,
    DifficultyEasy,
    DifficultyMedium,
    DifficultyHard,
}

/// Handle one menu interaction. Outside the menu nothing happens. The play
/// action starts a run only once a difficulty has been selected: it resets
/// the level's dynamic entities and spawns the player with the persistent
/// upgrades applied. The difficulty buttons select; the shop buttons are
/// affordability-checked mutations of the persistent stats, refused
/// silently otherwise.
pub fn dashboard_interactions(game: &mut Game, action: DashboardAction)
    requires
        game_wf(*old(game)),
        old(game).stats.weapon_upgrade_level + 1 <= u32::MAX,
        old(game).stats.max_ammo_level + 1 <= u32::MAX,
        BASE_AMMO + old(game).stats.max_ammo_level * AMMO_PER_LEVEL <= u32::MAX,
    ensures
        game_wf(*final(game)),
        old(game).state != GameState::Dashboard ==> game_unchanged(*final(game), *old(game)),
        old(game).state == GameState::Dashboard ==> {
            &&& final(game).wallet == old(game).wallet
            &&& final(game).upgrade_cost == old(game).upgrade_cost
            &&& final(game).wave == old(game).wave
            &&& match action {
                DashboardAction::Play => {
                    if old(game).settings.difficulty is Some {
                        &&& final(game).state == GameState::Playing
                        &&& final(game).world.player == Some(spawned_player(old(game).stats))
                        &&& final(game).world.zombies@ == Seq::<crate::components::Zombie>::empty()
                        &&& final(game).world.projectiles@
                            == Seq::<crate::components::Projectile>::empty()
                        &&& final(game).world.walls@ == old(game).world.walls@
                        &&& final(game).stats == old(game).stats
                        &&& final(game).settings == old(game).settings
                    } else {
                        game_unchanged(*final(game), *old(game))
                    }
                },
                DashboardAction::UpgradeWeapon => {
                    &&& final(game).stats == upgrade_weapon_spec(old(game).stats)
                    &&& final(game).state == old(game).state
                    &&& final(game).settings == old(game).settings
                    &&& world_unchanged(final(game).world, old(game).world)
                },
                DashboardAction::UpgradeAmmo => {
                    &&& final(game).stats == upgrade_ammo_spec(old(game).stats)
                    &&& final(game).state == old(game).state
                    &&& final(game).settings == old(game).settings
                    &&& world_unchanged(final(game).world, old(game).world)
                },
                DashboardAction::UnlockShotgun => {
                    &&& final(game).stats == unlock_shotgun_spec(old(game).stats)
                    &&& final(game).state == old(game).state
                    &&& final(game).settings == old(game).settings
                    &&& world_unchanged(final(game).world, old(game).world)
                },
                DashboardAction::UnlockRifle => {
                    &&& final(game).stats == unlock_rifle_spec(old(game).stats)
                    &&& final(game).state == old(game).state
                    &&& final(game).settings == old(game).settings
                    &&& world_unchanged(final(game).world, old(game).world)
                },
                DashboardAction::DifficultyEasy => {
                    &&& final(game).settings.difficulty == Some(Difficulty::Easy)
                    &&& final(game).state == old(game).state
                    &&& final(game).stats == old(game).stats
                    &&& world_unchanged(final(game).world, old(game).world)
                },
                DashboardAction::DifficultyMedium => {
                    &&& final(game).settings.difficulty == Some(Difficulty::Medium)
                    &&& final(game).state == old(game).state
                    &&& final(game).stats == old(game).stats
                    &&& world_unchanged(final(game).world, old(game).world)
                },
                DashboardAction::DifficultyHard => {
                    &&& final(game).settings.difficulty == Some(Difficulty::Hard)
                    &&& final(game).state == old(game).state
                    &&& final(game).stats == old(game).stats
                    &&& world_unchanged(final(game).world, old(game).world)
                },
            }
        },
{
    match game.state {
        GameState::Dashboard => {},
        _ => { return; },
    }
    match action {
        DashboardAction::Play => {
            let selected = match &game.settings.difficulty {
                Some(_) => true,
                None => false,
            };
            if selected {
                cleanup_level(&mut game.world);
                spawn_player(&mut game.world, &game.stats);
                game.state = GameState::Playing;
                proof {
                    crate::player::lemma_decayed_fire_rate_bounds(
                        old(game).stats.weapon_upgrade_level as nat,
                    );
                }
            }
        },
        DashboardAction::UpgradeWeapon => {
            upgrade_weapon(&mut game.stats);
        },
        DashboardAction::UpgradeAmmo => {
            upgrade_ammo(&mut game.stats);
        },
        DashboardAction::UnlockShotgun => {
            unlock_shotgun(&mut game.stats);
        },
        DashboardAction::UnlockRifle => {
            unlock_rifle(&mut game.stats);
        },
        DashboardAction::DifficultyEasy => {
            game.settings.difficulty = Some(Difficulty::Easy);
        },
        DashboardAction::DifficultyMedium => {
            game.settings.difficulty = Some(Difficulty::Medium);
        },
        DashboardAction::DifficultyHard => {
            game.settings.difficulty = Some(Difficulty::Hard);
        },
    }
}

/// Handle the pause toggle and the return to the menu. The menu return
/// wins over the pause toggle when both are pressed in the same tick, and
/// clears the level; outside a run both keys are ignored.
pub fn toggle_pause(game: &mut Game, pause_pressed: bool, escape_pressed: bool)
    requires
        game_wf(*old(game)),
    ensures
        game_wf(*final(game)),
        final(game).settings == old(game).settings,
        final(game).stats == old(game).stats,
        final(game).wallet == old(game).wallet,
        final(game).upgrade_cost == old(game).upgrade_cost,
        final(game).wave == old(game).wave,
        ({
            let in_run = old(game).state == GameState::Playing || old(game).state
                == GameState::Paused;
            if escape_pressed && in_run {
                &&& final(game).state == GameState::Dashboard
                &&& level_cleared(final(game).world, old(game).world)
            } else if pause_pressed && old(game).state == GameState::Playing {
                &&& final(game).state == GameState::Paused
                &&& world_unchanged(final(game).world, old(game).world)
            } else if pause_pressed && old(game).state == GameState::Paused {
                &&& final(game).state == GameState::Playing
                &&& world_unchanged(final(game).world, old(game).world)
            } else {
                &&& final(game).state == old(game).state
                &&& world_unchanged(final(game).world, old(game).world)
            }
        }),
{
    let in_run = match game.state {
        GameState::Playing => true,
        GameState::Paused => true,
        _ => false,
    };
    if escape_pressed && in_run {
        cleanup_level(&mut game.world);
        game.state = GameState::Dashboard;
        return;
    }
    if pause_pressed {
        match game.state {
            GameState::Playing => {
                game.state = GameState::Paused;
            },
            GameState::Paused => {
                game.state = GameState::Playing;
            },
            _ => {},
        }
    }
}

/// Handle the restart key on an end screen: the run's wallet folds into
/// the persistent bank, the wallet and the wave state reset, the level is
/// cleared and the session returns to the menu.
pub fn restart_game(game: &mut Game, restart_pressed: bool)
    requires
        game_wf(*old(game)),
        old(game).stats.total_money + old(game).wallet.money <= u32::MAX,
    ensures
        game_wf(*final(game)),
        final(game).settings == old(game).settings,
        final(game).upgrade_cost == old(game).upgrade_cost,
        ({
            let ended = old(game).state == GameState::GameOver || old(game).state
                == GameState::Win;
            if restart_pressed && ended {
                &&& final(game).stats == GlobalPlayerStats {
                    total_money: (old(game).stats.total_money + old(game).wallet.money) as u32,
                    ..old(game).stats
                }
                &&& final(game).wallet.money == 0
                &&& final(game).wave == restarted_wave()
                &&& final(game).state == GameState::Dashboard
                &&& level_cleared(final(game).world, old(game).world)
            } else {
                game_unchanged(*final(game), *old(game))
            }
        }),
{
    let ended = match game.state {
        GameState::GameOver => true,
        GameState::Win => true,
        _ => false,
    };
    if restart_pressed && ended {
        game.stats.total_money = game.stats.total_money + game.wallet.money;
        game.wallet.money = 0;
        game.wave = WaveState {
            current_wave: 1,
            zombies_remaining: 10,
            spawn_timer: Timer::new(SPAWN_INTERVAL_MS, true),
        };
        cleanup_level(&mut game.world);
        game.state = GameState::Dashboard;
    }
}

} // verus!
