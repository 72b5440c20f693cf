use zombie_survivor::components::{Health, Player, Projectile, Speed, WeaponStats, WeaponType,
    Wall, Zombie};
use zombie_survivor::combat::{cleanup_projectiles, projectile_collision, projectile_movement,
    zombie_damage_player};
use zombie_survivor::geom::Vec2i;
use zombie_survivor::shop::Wallet;
use zombie_survivor::timer::Timer;
use zombie_survivor::world::World;

fn test_player(x: i64, y: i64, hp: i64) -> Player {
    Player {
        pos: Vec2i { x, y },
        facing: Vec2i { x: 1000, y: 0 },
        speed: Speed(150_000),
        health: Health { current: hp, max: 100_000 },
        weapon: WeaponStats {
            fire_rate_ms: 500,
            timer: Timer::new(500, true),
            current_ammo: 30,
            max_ammo: 30,
            current_weapon: WeaponType::Pistol,
        },
    }
}

fn test_zombie(x: i64, y: i64, hp: i64, reward: u32) -> Zombie {
    Zombie { pos: Vec2i { x, y }, size: 10_000, health: Health { current: hp, max: hp },
        money_reward: reward }
}

fn test_projectile(x: i64, y: i64, vx: i64, vy: i64, damage: i64) -> Projectile {
    Projectile {
        pos: Vec2i { x, y },
        velocity: Vec2i { x: vx, y: vy },
        lifetime: Timer::new(2_000, false),
        damage,
    }
}

#[test]
fn projectile_moves_with_velocity() {
    let mut w = World::new();
    w.projectiles.push(test_projectile(0, 0, 400_000, -200_000, 10_000));
    projectile_movement(&mut w, 500);
    assert_eq!(w.projectiles[0].pos, Vec2i { x: 200_000, y: -100_000 });
}

#[test]
fn projectile_expires_exactly_at_lifetime_end() {
    let mut w = World::new();
    w.projectiles.push(test_projectile(0, 0, 0, 0, 10_000));
    cleanup_projectiles(&mut w, 1_999);
    assert_eq!(w.projectiles.len(), 1);
    cleanup_projectiles(&mut w, 1);
    assert_eq!(w.projectiles.len(), 0);
}

#[test]
fn projectile_kill_credits_reward_exactly_once() {
    let mut w = World::new();
    let mut wallet = Wallet { money: 5 };
    w.zombies.push(test_zombie(0, 0, 10_000, 10));
    w.projectiles.push(test_projectile(0, 0, 0, 0, 10_000));
    projectile_collision(&mut w, &mut wallet);
    assert_eq!(w.zombies.len(), 0);
    assert_eq!(w.projectiles.len(), 0);
    assert_eq!(wallet.money, 15);
}

#[test]
fn projectile_damage_without_kill_pays_nothing() {
    let mut w = World::new();
    let mut wallet = Wallet { money: 0 };
    w.zombies.push(test_zombie(0, 0, 25_000, 10));
    w.projectiles.push(test_projectile(0, 0, 0, 0, 10_000));
    projectile_collision(&mut w, &mut wallet);
    assert_eq!(w.zombies.len(), 1);
    assert_eq!(w.zombies[0].health.current, 15_000);
    assert_eq!(w.projectiles.len(), 0);
    assert_eq!(wallet.money, 0);
}

#[test]
fn wall_absorbs_projectile_before_any_zombie() {
    let mut w = World::new();
    let mut wallet = Wallet { money: 0 };
    w.walls.push(Wall { pos: Vec2i { x: 0, y: 0 }, size: Vec2i { x: 20_000, y: 20_000 } });
    w.zombies.push(test_zombie(1_000, 0, 10_000, 10));
    w.projectiles.push(test_projectile(0, 0, 0, 0, 10_000));
    projectile_collision(&mut w, &mut wallet);
    assert_eq!(w.projectiles.len(), 0);
    assert_eq!(w.zombies.len(), 1);
    assert_eq!(w.zombies[0].health.current, 10_000);
    assert_eq!(wallet.money, 0);
}

#[test]
fn first_zombie_in_order_takes_the_hit() {
    let mut w = World::new();
    let mut wallet = Wallet { money: 0 };
    w.zombies.push(test_zombie(1_000, 0, 25_000, 10));
    w.zombies.push(test_zombie(-1_000, 0, 25_000, 20));
    w.projectiles.push(test_projectile(0, 0, 0, 0, 10_000));
    projectile_collision(&mut w, &mut wallet);
    assert_eq!(w.zombies[0].health.current, 15_000);
    assert_eq!(w.zombies[1].health.current, 25_000);
}

#[test]
fn one_projectile_resolves_against_at_most_one_zombie() {
    let mut w = World::new();
    let mut wallet = Wallet { money: 0 };
    w.zombies.push(test_zombie(1_000, 0, 10_000, 10));
    w.zombies.push(test_zombie(-1_000, 0, 10_000, 20));
    w.projectiles.push(test_projectile(0, 0, 0, 0, 10_000));
    projectile_collision(&mut w, &mut wallet);
    // Only the first zombie dies; the second is untouched.
    assert_eq!(w.zombies.len(), 1);
    assert_eq!(w.zombies[0].money_reward, 20);
    assert_eq!(wallet.money, 10);
}

#[test]
fn later_projectile_sees_zombies_left_by_earlier_one() {
    let mut w = World::new();
    let mut wallet = Wallet { money: 0 };
    w.zombies.push(test_zombie(1_000, 0, 10_000, 10));
    w.projectiles.push(test_projectile(0, 0, 0, 0, 10_000));
    w.projectiles.push(test_projectile(0, 0, 0, 0, 10_000));
    projectile_collision(&mut w, &mut wallet);
    // The first projectile killed the zombie; the second flies on.
    assert_eq!(w.zombies.len(), 0);
    assert_eq!(wallet.money, 10);
    assert_eq!(w.projectiles.len(), 1);
}

#[test]
fn contact_damage_stacks_per_zombie() {
    let mut w = World::new();
    w.player = Some(test_player(0, 0, 100_000));
    w.zombies.push(test_zombie(10_000, 0, 10_000, 10));
    w.zombies.push(test_zombie(-10_000, 0, 10_000, 10));
    let lost = zombie_damage_player(&mut w, 1_000);
    assert!(!lost);
    // Two zombies in contact: 2 * 10 hp/s * 1 s.
    assert_eq!(w.player.unwrap().health.current, 80_000);
}

#[test]
fn zombie_outside_contact_radius_deals_nothing() {
    let mut w = World::new();
    w.player = Some(test_player(0, 0, 100_000));
    w.zombies.push(test_zombie(32_000, 0, 10_000, 10));
    let lost = zombie_damage_player(&mut w, 1_000);
    assert!(!lost);
    assert_eq!(w.player.unwrap().health.current, 100_000);
}

#[test]
fn contact_death_despawns_player_and_requests_loss() {
    let mut w = World::new();
    w.player = Some(test_player(0, 0, 10_000));
    w.zombies.push(test_zombie(0, 0, 10_000, 10));
    let lost = zombie_damage_player(&mut w, 1_000);
    assert!(lost);
    assert!(w.player.is_none());
}
