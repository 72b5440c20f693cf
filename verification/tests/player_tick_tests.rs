use zombie_survivor::components::{Health, WeaponType, Zombie};
use zombie_survivor::geom::Vec2i;
use zombie_survivor::player::{player_aim, player_shoot, spawn_player, weapon_switching};
use zombie_survivor::progression::GlobalPlayerStats;
use zombie_survivor::session::{DashboardAction, Game, GameState, dashboard_interactions};
use zombie_survivor::tick::{TickInput, tick};
use zombie_survivor::world::World;

fn no_input() -> TickInput {
    TickInput {
        up: false,
        down: false,
        left: false,
        right: false,
        aim_target: None,
        fire_held: false,
        slot1: false,
        slot2: false,
        slot3: false,
        buy_pressed: false,
        pause_pressed: false,
        escape_pressed: false,
        restart_pressed: false,
    }
}

fn stats_with(weapon_level: u32, ammo_level: u32) -> GlobalPlayerStats {
    GlobalPlayerStats {
        total_money: 0,
        level: 0,
        weapon_upgrade_level: weapon_level,
        max_ammo_level: ammo_level,
        unlocked_shotgun: false,
        unlocked_rifle: false,
    }
}

#[test]
fn spawn_player_applies_persistent_upgrades() {
    let mut w = World::new();
    spawn_player(&mut w, &stats_with(2, 3));
    let p = w.player.unwrap();
    // 500 ms decayed twice by nine tenths: 450, then 405.
    assert_eq!(p.weapon.fire_rate_ms, 405);
    assert_eq!(p.weapon.timer.duration_ms, 405);
    assert_eq!(p.weapon.max_ammo, 60);
    assert_eq!(p.weapon.current_ammo, 60);
    assert_eq!(p.health.current, 100_000);
    assert_eq!(p.health.max, 100_000);
    assert_eq!(p.pos, Vec2i { x: 0, y: 0 });
    assert!(matches!(p.weapon.current_weapon, WeaponType::Pistol));
}

#[test]
fn aim_normalizes_toward_the_target() {
    let mut w = World::new();
    spawn_player(&mut w, &stats_with(0, 0));
    player_aim(&mut w, Vec2i { x: 300_000, y: 400_000 });
    let p = w.player.unwrap();
    assert_eq!(p.facing, Vec2i { x: 600, y: 800 });
}

#[test]
fn aim_at_own_position_faces_along_x() {
    let mut w = World::new();
    spawn_player(&mut w, &stats_with(0, 0));
    player_aim(&mut w, Vec2i { x: 0, y: 0 });
    assert_eq!(w.player.unwrap().facing, Vec2i { x: 1000, y: 0 });
}

#[test]
fn shooting_spends_ammo_and_spawns_a_projectile() {
    let mut w = World::new();
    spawn_player(&mut w, &stats_with(0, 0));
    // One full cooldown must elapse before the first shot.
    player_shoot(&mut w, true, 500);
    assert_eq!(w.projectiles.len(), 1);
    let p = w.player.unwrap();
    assert_eq!(p.weapon.current_ammo, 29);
    let shot = &w.projectiles[0];
    assert_eq!(shot.velocity, Vec2i { x: 400_000, y: 0 });
    assert_eq!(shot.damage, 10_000);
    assert_eq!(shot.lifetime.duration_ms, 2_000);
}

#[test]
fn holding_fire_respects_the_cooldown() {
    let mut w = World::new();
    spawn_player(&mut w, &stats_with(0, 0));
    player_shoot(&mut w, true, 100);
    assert_eq!(w.projectiles.len(), 0);
    player_shoot(&mut w, true, 100);
    assert_eq!(w.projectiles.len(), 0);
    player_shoot(&mut w, true, 300);
    assert_eq!(w.projectiles.len(), 1);
}

#[test]
fn no_shot_without_the_trigger() {
    let mut w = World::new();
    spawn_player(&mut w, &stats_with(0, 0));
    player_shoot(&mut w, false, 2_000);
    assert_eq!(w.projectiles.len(), 0);
}

#[test]
fn weapon_slots_gated_by_unlocks() {
    let mut w = World::new();
    spawn_player(&mut w, &stats_with(0, 0));
    let mut stats = stats_with(0, 0);
    weapon_switching(&mut w, &stats, false, true, false);
    assert!(matches!(w.player.unwrap().weapon.current_weapon, WeaponType::Pistol));
    stats.unlocked_shotgun = true;
    weapon_switching(&mut w, &stats, false, true, false);
    assert!(matches!(w.player.unwrap().weapon.current_weapon, WeaponType::Shotgun));
    stats.unlocked_rifle = true;
    weapon_switching(&mut w, &stats, false, false, true);
    assert!(matches!(w.player.unwrap().weapon.current_weapon, WeaponType::Rifle));
    weapon_switching(&mut w, &stats, true, false, false);
    assert!(matches!(w.player.unwrap().weapon.current_weapon, WeaponType::Pistol));
}

#[test]
fn tick_spawns_after_one_interval_of_play() {
    let mut g = Game::new();
    dashboard_interactions(&mut g, DashboardAction::DifficultyEasy);
    dashboard_interactions(&mut g, DashboardAction::Play);
    assert!(matches!(g.state, GameState::Playing));
    tick(&mut g, no_input(), 2_000);
    assert!(matches!(g.state, GameState::Playing));
    assert_eq!(g.world.zombies.len(), 1);
    assert_eq!(g.wave.zombies_remaining, 4);
}

#[test]
fn tick_on_the_menu_does_nothing() {
    let mut g = Game::new();
    tick(&mut g, no_input(), 2_000);
    assert!(matches!(g.state, GameState::Dashboard));
    assert_eq!(g.world.zombies.len(), 0);
}

#[test]
fn paused_tick_freezes_gameplay() {
    let mut g = Game::new();
    dashboard_interactions(&mut g, DashboardAction::DifficultyEasy);
    dashboard_interactions(&mut g, DashboardAction::Play);
    let mut pause = no_input();
    pause.pause_pressed = true;
    tick(&mut g, pause, 16);
    assert!(matches!(g.state, GameState::Paused));
    let mut moving = no_input();
    moving.right = true;
    tick(&mut g, moving, 2_000);
    assert!(matches!(g.state, GameState::Paused));
    assert_eq!(g.world.player.unwrap().pos, Vec2i { x: 0, y: 0 });
    assert_eq!(g.world.zombies.len(), 0);
}

#[test]
fn contact_losses_end_in_game_over() {
    let mut g = Game::new();
    dashboard_interactions(&mut g, DashboardAction::DifficultyEasy);
    dashboard_interactions(&mut g, DashboardAction::Play);
    // Stop the director from spawning and stand a zombie on the player.
    g.wave.zombies_remaining = 0;
    g.world.zombies.push(Zombie {
        pos: Vec2i { x: 0, y: 0 },
        size: 10_000,
        health: Health { current: 10_000, max: 10_000 },
        money_reward: 10,
    });
    for _ in 0..9 {
        tick(&mut g, no_input(), 1_000);
        assert!(matches!(g.state, GameState::Playing));
    }
    // Ten seconds of contact at 10 hp/s exhausts 100 hp.
    tick(&mut g, no_input(), 1_000);
    assert!(matches!(g.state, GameState::GameOver));
    assert!(g.world.player.is_none());
}

#[test]
fn clearing_the_last_wave_wins_in_a_tick() {
    let mut g = Game::new();
    dashboard_interactions(&mut g, DashboardAction::DifficultyEasy);
    dashboard_interactions(&mut g, DashboardAction::Play);
    g.wave.zombies_remaining = 0;
    tick(&mut g, no_input(), 16);
    assert!(matches!(g.state, GameState::Win));
    assert_eq!(g.world.zombies.len(), 0);
}

#[test]
fn kill_inside_a_tick_credits_the_wallet_the_same_tick() {
    let mut g = Game::new();
    dashboard_interactions(&mut g, DashboardAction::DifficultyEasy);
    dashboard_interactions(&mut g, DashboardAction::Play);
    g.wave.zombies_remaining = 0;
    g.world.zombies.push(Zombie {
        pos: Vec2i { x: 100_000, y: 0 },
        size: 20_000,
        health: Health { current: 10_000, max: 10_000 },
        money_reward: 10,
    });
    g.world.projectiles.push(zombie_survivor::components::Projectile {
        pos: Vec2i { x: 60_000, y: 0 },
        velocity: Vec2i { x: 400_000, y: 0 },
        lifetime: zombie_survivor::timer::Timer::new(2_000, false),
        damage: 10_000,
    });
    tick(&mut g, no_input(), 100);
    // The zombie chased to x = 92, the projectile flew to x = 100: within
    // its 12.5 radius, so it died and paid out in the same tick.
    assert_eq!(g.world.zombies.len(), 0);
    assert_eq!(g.world.projectiles.len(), 0);
    assert_eq!(g.wallet.money, 10);
    // The cleared field and exhausted budget end the Easy run next tick.
    tick(&mut g, no_input(), 16);
    assert!(matches!(g.state, GameState::Win));
}

#[test]
fn movement_happens_inside_a_tick() {
    let mut g = Game::new();
    dashboard_interactions(&mut g, DashboardAction::DifficultyMedium);
    dashboard_interactions(&mut g, DashboardAction::Play);
    let mut moving = no_input();
    moving.right = true;
    tick(&mut g, moving, 1_000);
    assert_eq!(g.world.player.unwrap().pos, Vec2i { x: 150_000, y: 0 });
}
