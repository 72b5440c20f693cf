use zombie_survivor::components::{Health, Player, Speed, WeaponStats, WeaponType};
use zombie_survivor::geom::Vec2i;
use zombie_survivor::session::{DashboardAction, Game, GameState, dashboard_interactions,
    restart_game, toggle_pause};
use zombie_survivor::settings::Difficulty;
use zombie_survivor::shop::{Wallet, WeaponUpgradeCost, shop_input, unlock_rifle};
use zombie_survivor::timer::Timer;
use zombie_survivor::world::World;

fn test_player() -> Player {
    Player {
        pos: Vec2i { x: 0, y: 0 },
        facing: Vec2i { x: 1000, y: 0 },
        speed: Speed(150_000),
        health: Health { current: 100_000, max: 100_000 },
        weapon: WeaponStats {
            fire_rate_ms: 500,
            timer: Timer::new(500, true),
            current_ammo: 30,
            max_ammo: 30,
            current_weapon: WeaponType::Pistol,
        },
    }
}

#[test]
fn restart_reconciles_wallet_into_bank() {
    let mut g = Game::new();
    g.state = GameState::GameOver;
    g.wallet.money = 250;
    g.stats.total_money = 1_000;
    restart_game(&mut g, true);
    assert_eq!(g.stats.total_money, 1_250);
    assert_eq!(g.wallet.money, 0);
    assert_eq!(g.wave.current_wave, 1);
    assert_eq!(g.wave.zombies_remaining, 10);
    assert!(matches!(g.state, GameState::Dashboard));
    assert!(g.world.player.is_none());
}

#[test]
fn restart_needs_the_key_and_an_end_screen() {
    let mut g = Game::new();
    g.state = GameState::Win;
    g.wallet.money = 250;
    restart_game(&mut g, false);
    assert_eq!(g.wallet.money, 250);
    assert!(matches!(g.state, GameState::Win));

    let mut g2 = Game::new();
    g2.state = GameState::Playing;
    g2.settings.difficulty = Some(Difficulty::Easy);
    g2.wallet.money = 250;
    restart_game(&mut g2, true);
    assert_eq!(g2.wallet.money, 250);
    assert!(matches!(g2.state, GameState::Playing));
}

#[test]
fn rifle_unlock_refused_repeatedly_without_funds() {
    let mut g = Game::new();
    g.stats.total_money = 50;
    for _ in 0..5 {
        dashboard_interactions(&mut g, DashboardAction::UnlockRifle);
    }
    assert_eq!(g.stats.total_money, 50);
    assert!(!g.stats.unlocked_rifle);
}

#[test]
fn rifle_unlock_paid_exactly_once() {
    let mut stats = zombie_survivor::progression::GlobalPlayerStats {
        total_money: 2_500,
        level: 0,
        weapon_upgrade_level: 0,
        max_ammo_level: 0,
        unlocked_shotgun: false,
        unlocked_rifle: false,
    };
    unlock_rifle(&mut stats);
    assert_eq!(stats.total_money, 1_500);
    assert!(stats.unlocked_rifle);
    unlock_rifle(&mut stats);
    assert_eq!(stats.total_money, 1_500);
}

#[test]
fn play_resets_the_level_entities() {
    let mut g = Game::new();
    // Entities left over from before the run must not survive the Play
    // transition: only the Wave Director creates zombies during a run.
    g.world.zombies.push(zombie_survivor::components::Zombie {
        pos: Vec2i { x: 0, y: 0 },
        size: 10_000,
        health: zombie_survivor::components::Health { current: 10_000, max: 10_000 },
        money_reward: 10,
    });
    g.world.projectiles.push(zombie_survivor::components::Projectile {
        pos: Vec2i { x: 0, y: 0 },
        velocity: Vec2i { x: 0, y: 0 },
        lifetime: Timer::new(2_000, false),
        damage: 10_000,
    });
    dashboard_interactions(&mut g, DashboardAction::DifficultyEasy);
    dashboard_interactions(&mut g, DashboardAction::Play);
    assert!(matches!(g.state, GameState::Playing));
    assert!(g.world.player.is_some());
    assert_eq!(g.world.zombies.len(), 0);
    assert_eq!(g.world.projectiles.len(), 0);
}

#[test]
fn play_requires_a_selected_difficulty() {
    let mut g = Game::new();
    dashboard_interactions(&mut g, DashboardAction::Play);
    assert!(matches!(g.state, GameState::Dashboard));
    assert!(g.world.player.is_none());
    dashboard_interactions(&mut g, DashboardAction::DifficultyHard);
    assert_eq!(g.settings.difficulty, Some(Difficulty::Hard));
    dashboard_interactions(&mut g, DashboardAction::Play);
    assert!(matches!(g.state, GameState::Playing));
    assert!(g.world.player.is_some());
}

#[test]
fn dashboard_upgrades_spend_banked_money() {
    let mut g = Game::new();
    g.stats.total_money = 250;
    dashboard_interactions(&mut g, DashboardAction::UpgradeWeapon);
    assert_eq!(g.stats.total_money, 150);
    assert_eq!(g.stats.weapon_upgrade_level, 1);
    dashboard_interactions(&mut g, DashboardAction::UpgradeAmmo);
    assert_eq!(g.stats.total_money, 50);
    assert_eq!(g.stats.max_ammo_level, 1);
    // Third purchase is refused: 50 < 100.
    dashboard_interactions(&mut g, DashboardAction::UpgradeWeapon);
    assert_eq!(g.stats.total_money, 50);
    assert_eq!(g.stats.weapon_upgrade_level, 1);
}

#[test]
fn shotgun_unlock_disabled_once_owned() {
    let mut g = Game::new();
    g.stats.total_money = 1_000;
    dashboard_interactions(&mut g, DashboardAction::UnlockShotgun);
    assert_eq!(g.stats.total_money, 500);
    assert!(g.stats.unlocked_shotgun);
    dashboard_interactions(&mut g, DashboardAction::UnlockShotgun);
    assert_eq!(g.stats.total_money, 500);
}

#[test]
fn pause_toggles_and_menu_return_clears_level() {
    let mut g = Game::new();
    g.settings.difficulty = Some(Difficulty::Easy);
    g.state = GameState::Playing;
    toggle_pause(&mut g, true, false);
    assert!(matches!(g.state, GameState::Paused));
    toggle_pause(&mut g, true, false);
    assert!(matches!(g.state, GameState::Playing));
    g.world.player = Some(test_player());
    toggle_pause(&mut g, false, true);
    assert!(matches!(g.state, GameState::Dashboard));
    assert!(g.world.player.is_none());
    assert_eq!(g.world.zombies.len(), 0);
    assert_eq!(g.world.projectiles.len(), 0);
}

#[test]
fn fire_rate_upgrade_compounds_and_updates_the_timer() {
    let mut w = World::new();
    w.player = Some(test_player());
    let mut wallet = Wallet { money: 100 };
    let mut cost = WeaponUpgradeCost { fire_rate_cost: 10 };
    shop_input(&mut w, &mut wallet, &mut cost, true);
    let weapon1 = w.player.unwrap().weapon;
    assert_eq!(weapon1.fire_rate_ms, 400);
    assert_eq!(weapon1.timer.duration_ms, 400);
    assert_eq!(wallet.money, 90);
    assert_eq!(cost.fire_rate_cost, 60);
    shop_input(&mut w, &mut wallet, &mut cost, true);
    let weapon2 = w.player.unwrap().weapon;
    // 0.5 s * 0.8 * 0.8 = 0.32 s.
    assert_eq!(weapon2.fire_rate_ms, 320);
    assert_eq!(weapon2.timer.duration_ms, 320);
    assert_eq!(wallet.money, 30);
    assert_eq!(cost.fire_rate_cost, 110);
}

#[test]
fn fire_rate_upgrade_refused_without_funds() {
    let mut w = World::new();
    w.player = Some(test_player());
    let mut wallet = Wallet { money: 5 };
    let mut cost = WeaponUpgradeCost { fire_rate_cost: 10 };
    shop_input(&mut w, &mut wallet, &mut cost, true);
    assert_eq!(w.player.unwrap().weapon.fire_rate_ms, 500);
    assert_eq!(wallet.money, 5);
    assert_eq!(cost.fire_rate_cost, 10);
}

#[test]
fn fire_rate_purchase_needs_a_player() {
    let mut w = World::new();
    let mut wallet = Wallet { money: 100 };
    let mut cost = WeaponUpgradeCost { fire_rate_cost: 10 };
    shop_input(&mut w, &mut wallet, &mut cost, true);
    assert_eq!(wallet.money, 100);
    assert_eq!(cost.fire_rate_cost, 10);
}
