use zombie_survivor::components::{Health, Player, Speed, WeaponStats, WeaponType, Wall, Zombie};
use zombie_survivor::geom::Vec2i;
use zombie_survivor::movement::{player_movement, zombie_chase};
use zombie_survivor::timer::Timer;
use zombie_survivor::world::World;

fn test_player(x: i64, y: i64) -> Player {
    Player {
        pos: Vec2i { x, y },
        facing: Vec2i { x: 1000, y: 0 },
        speed: Speed(150_000),
        health: Health { current: 100_000, max: 100_000 },
        weapon: WeaponStats {
            fire_rate_ms: 500,
            timer: Timer::new(500, true),
            current_ammo: 30,
            max_ammo: 30,
            current_weapon: WeaponType::Pistol,
        },
    }
}

fn test_zombie(x: i64, y: i64) -> Zombie {
    Zombie {
        pos: Vec2i { x, y },
        size: 10_000,
        health: Health { current: 10_000, max: 10_000 },
        money_reward: 10,
    }
}

#[test]
fn player_moves_right_at_speed() {
    let mut w = World::new();
    w.player = Some(test_player(0, 0));
    player_movement(&mut w, false, false, false, true, 1_000);
    let p = w.player.unwrap();
    assert_eq!(p.pos.x, 150_000);
    assert_eq!(p.pos.y, 0);
}

#[test]
fn diagonal_movement_is_normalized() {
    let mut w = World::new();
    w.player = Some(test_player(0, 0));
    player_movement(&mut w, true, false, false, true, 1_000);
    let p = w.player.unwrap();
    // 150_000 * 707 / 1000 per axis.
    assert_eq!(p.pos.x, 106_050);
    assert_eq!(p.pos.y, 106_050);
}

#[test]
fn move_into_wall_is_rejected_whole() {
    let mut w = World::new();
    w.player = Some(test_player(0, 0));
    w.walls.push(Wall { pos: Vec2i { x: 40_000, y: 0 }, size: Vec2i { x: 40_000, y: 40_000 } });
    player_movement(&mut w, false, false, false, true, 1_000);
    // The proposed position (150_000) jumps past the wall; the test wall is
    // wide enough to catch the box, so the whole move is discarded.
    let mut w2 = World::new();
    w2.player = Some(test_player(0, 0));
    w2.walls.push(Wall { pos: Vec2i { x: 150_000, y: 0 }, size: Vec2i { x: 40_000, y: 40_000 } });
    player_movement(&mut w2, false, false, false, true, 1_000);
    assert_eq!(w2.player.unwrap().pos, Vec2i { x: 0, y: 0 });
}

#[test]
fn diagonal_into_corner_freezes_instead_of_sliding() {
    let mut w = World::new();
    w.player = Some(test_player(0, 0));
    // A wall that blocks the diagonal destination but leaves the pure-x
    // destination free: the mover still freezes, no per-axis resolution.
    w.walls.push(Wall {
        pos: Vec2i { x: 106_050, y: 106_050 },
        size: Vec2i { x: 40_000, y: 40_000 },
    });
    player_movement(&mut w, true, false, false, true, 1_000);
    assert_eq!(w.player.unwrap().pos, Vec2i { x: 0, y: 0 });
}

#[test]
fn zombie_chases_player_at_chase_speed() {
    let mut w = World::new();
    w.player = Some(test_player(0, 0));
    w.zombies.push(test_zombie(100_000, 0));
    zombie_chase(&mut w, 1_000);
    // 80 units per second toward the player.
    assert_eq!(w.zombies[0].pos, Vec2i { x: 20_000, y: 0 });
}

#[test]
fn zombie_at_player_position_stays() {
    let mut w = World::new();
    w.player = Some(test_player(0, 0));
    w.zombies.push(test_zombie(0, 0));
    zombie_chase(&mut w, 1_000);
    assert_eq!(w.zombies[0].pos, Vec2i { x: 0, y: 0 });
}

#[test]
fn zombie_move_into_wall_is_rejected() {
    let mut w = World::new();
    w.player = Some(test_player(200_000, 0));
    w.zombies.push(test_zombie(0, 0));
    w.walls.push(Wall { pos: Vec2i { x: 80_000, y: 0 }, size: Vec2i { x: 40_000, y: 40_000 } });
    zombie_chase(&mut w, 1_000);
    assert_eq!(w.zombies[0].pos, Vec2i { x: 0, y: 0 });
}

#[test]
fn no_player_means_no_chase() {
    let mut w = World::new();
    w.zombies.push(test_zombie(100_000, 0));
    zombie_chase(&mut w, 1_000);
    assert_eq!(w.zombies[0].pos, Vec2i { x: 100_000, y: 0 });
}
