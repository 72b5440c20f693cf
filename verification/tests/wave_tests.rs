use zombie_survivor::components::{Health, Zombie};
use zombie_survivor::geom::Vec2i;
use zombie_survivor::settings::Difficulty;
use zombie_survivor::timer::Timer;
use zombie_survivor::wave::{ARENA_X, ARENA_Y, WaveState, spawn_random_zombie, spawn_zombie_at,
    wave_manager, wave_manager_with_positions};
use zombie_survivor::world::World;

fn three_positions() -> Vec<Vec2i> {
    vec![
        Vec2i { x: 10_000, y: 20_000 },
        Vec2i { x: -30_000, y: 40_000 },
        Vec2i { x: 50_000, y: -60_000 },
    ]
}

fn in_arena(p: Vec2i) -> bool {
    -ARENA_X <= p.x && p.x < ARENA_X && -ARENA_Y <= p.y && p.y < ARENA_Y
}

#[test]
fn easy_clearing_first_wave_wins() {
    let mut w = World::new();
    let mut wave = WaveState::new();
    wave.zombies_remaining = 0;
    let win = wave_manager(&mut w, &mut wave, Difficulty::Easy, 16);
    assert!(win);
    assert_eq!(wave.current_wave, 1);
    assert_eq!(w.zombies.len(), 0);
}

#[test]
fn hard_clearing_second_wave_advances_instead_of_winning() {
    let mut w = World::new();
    let mut wave = WaveState::new();
    wave.current_wave = 2;
    wave.zombies_remaining = 0;
    let win = wave_manager(&mut w, &mut wave, Difficulty::Hard, 16);
    assert!(!win);
    assert_eq!(wave.current_wave, 3);
    assert_eq!(wave.zombies_remaining, 11);
}

#[test]
fn wave_not_cleared_while_zombies_live() {
    let mut w = World::new();
    w.zombies.push(Zombie {
        pos: Vec2i { x: 0, y: 0 },
        size: 10_000,
        health: Health { current: 10_000, max: 10_000 },
        money_reward: 10,
    });
    let mut wave = WaveState::new();
    wave.zombies_remaining = 0;
    let win = wave_manager(&mut w, &mut wave, Difficulty::Easy, 16);
    assert!(!win);
    assert_eq!(wave.current_wave, 1);
}

#[test]
fn spawn_pulse_capped_by_remaining_budget() {
    let mut w = World::new();
    let mut wave = WaveState::new();
    wave.zombies_remaining = 2;
    let positions = three_positions();
    // Advance exactly one spawn interval so the pulse fires.
    let win = wave_manager_with_positions(&mut w, &mut wave, Difficulty::Hard, 2_000, &positions);
    assert!(!win);
    // Hard spawns 3 per pulse but only 2 remained.
    assert_eq!(w.zombies.len(), 2);
    assert_eq!(wave.zombies_remaining, 0);
    assert_eq!(w.zombies[0].pos, positions[0]);
    assert_eq!(w.zombies[1].pos, positions[1]);
}

#[test]
fn no_spawn_before_the_timer_fires() {
    let mut w = World::new();
    let mut wave = WaveState::new();
    let positions = three_positions();
    let win = wave_manager_with_positions(&mut w, &mut wave, Difficulty::Easy, 1_999, &positions);
    assert!(!win);
    assert_eq!(w.zombies.len(), 0);
    assert_eq!(wave.zombies_remaining, 5);
}

#[test]
fn easy_spawns_one_per_pulse() {
    let mut w = World::new();
    let mut wave = WaveState::new();
    let positions = three_positions();
    let win = wave_manager_with_positions(&mut w, &mut wave, Difficulty::Easy, 2_000, &positions);
    assert!(!win);
    assert_eq!(w.zombies.len(), 1);
    assert_eq!(wave.zombies_remaining, 4);
}

#[test]
fn tier_stats_follow_the_wave() {
    let mut w = World::new();
    spawn_zombie_at(&mut w, 1, Vec2i { x: 0, y: 0 });
    spawn_zombie_at(&mut w, 2, Vec2i { x: 0, y: 0 });
    spawn_zombie_at(&mut w, 5, Vec2i { x: 0, y: 0 });
    assert_eq!(w.zombies[0].size, 10_000);
    assert_eq!(w.zombies[0].health.current, 10_000);
    assert_eq!(w.zombies[0].money_reward, 10);
    assert_eq!(w.zombies[1].size, 20_000);
    assert_eq!(w.zombies[1].health.current, 20_000);
    assert_eq!(w.zombies[1].money_reward, 20);
    assert_eq!(w.zombies[2].size, 30_000);
    assert_eq!(w.zombies[2].health.current, 40_000);
    assert_eq!(w.zombies[2].money_reward, 30);
}

#[test]
fn random_spawns_land_inside_the_arena() {
    let mut w = World::new();
    for _ in 0..50 {
        spawn_random_zombie(&mut w, 1);
    }
    assert_eq!(w.zombies.len(), 50);
    for z in &w.zombies {
        assert!(in_arena(z.pos));
        assert_eq!(z.health.current, 10_000);
    }
}

#[test]
fn fresh_wave_state_matches_the_first_run() {
    let wave = WaveState::new();
    assert_eq!(wave.current_wave, 1);
    assert_eq!(wave.zombies_remaining, 5);
    assert_eq!(wave.spawn_timer, Timer::new(2_000, true));
}
