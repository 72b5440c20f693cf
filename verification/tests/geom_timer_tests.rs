use zombie_survivor::geom::{Vec2i, overlaps_aabb, point_in_box, points_within_radius};
use zombie_survivor::num::{isqrt, scale};
use zombie_survivor::timer::Timer;

fn v(x: i64, y: i64) -> Vec2i {
    Vec2i { x, y }
}

#[test]
fn aabb_touching_edges_do_not_overlap() {
    // Two 10x10 boxes exactly edge to edge: strict inequalities reject.
    assert!(!overlaps_aabb(v(0, 0), v(10_000, 10_000), v(10_000, 0), v(10_000, 10_000)));
    // One stored unit closer and they overlap.
    assert!(overlaps_aabb(v(0, 0), v(10_000, 10_000), v(9_999, 0), v(10_000, 10_000)));
}

#[test]
fn aabb_disjoint_boxes_do_not_overlap() {
    assert!(!overlaps_aabb(v(0, 0), v(10_000, 10_000), v(50_000, 50_000), v(10_000, 10_000)));
    // Overlap must hold on both axes.
    assert!(!overlaps_aabb(v(0, 0), v(10_000, 10_000), v(5_000, 50_000), v(10_000, 10_000)));
}

#[test]
fn point_in_box_is_strict() {
    assert!(point_in_box(v(0, 0), v(0, 0), v(10_000, 10_000)));
    // On the edge: not inside.
    assert!(!point_in_box(v(5_000, 0), v(0, 0), v(10_000, 10_000)));
    assert!(point_in_box(v(4_999, 0), v(0, 0), v(10_000, 10_000)));
}

#[test]
fn radius_test_is_strict() {
    // Distance exactly 5000: not within; one less: within.
    assert!(!points_within_radius(v(0, 0), v(5_000, 0), 5_000));
    assert!(points_within_radius(v(0, 0), v(4_999, 0), 5_000));
    // 3-4-5 triangle at scale: distance 5000.
    assert!(!points_within_radius(v(0, 0), v(3_000, 4_000), 5_000));
    assert!(points_within_radius(v(0, 0), v(3_000, 4_000), 5_001));
}

#[test]
fn isqrt_exact_values() {
    assert_eq!(isqrt(0), 0);
    assert_eq!(isqrt(1), 1);
    assert_eq!(isqrt(8), 2);
    assert_eq!(isqrt(9), 3);
    assert_eq!(isqrt(10), 3);
    assert_eq!(isqrt(1_000_000_000_000), 1_000_000);
    assert_eq!(isqrt(u64::MAX as u128), 4_294_967_295);
}

#[test]
fn scale_rounds_magnitude_toward_zero() {
    assert_eq!(scale(5_000, 500, 1_000), 2_500);
    assert_eq!(scale(-5_000, 500, 1_000), -2_500);
    assert_eq!(scale(3, 1, 2), 1);
    assert_eq!(scale(-3, 1, 2), -1);
    assert_eq!(scale(0, 123, 7), 0);
}

#[test]
fn once_timer_finishes_exactly_at_duration() {
    let mut t = Timer::new(1_000, false);
    t.tick(999);
    assert!(!t.finished);
    assert!(!t.just_finished);
    t.tick(1);
    assert!(t.finished);
    assert!(t.just_finished);
    // Further ticking keeps it finished but no longer "just".
    t.tick(5);
    assert!(t.finished);
    assert!(!t.just_finished);
    assert_eq!(t.elapsed_ms, 1_000);
}

#[test]
fn repeating_timer_wraps_and_reports_completion() {
    let mut t = Timer::new(500, true);
    t.tick(1_200);
    assert!(t.finished);
    assert!(t.just_finished);
    assert_eq!(t.elapsed_ms, 200);
    t.tick(200);
    assert!(!t.finished);
    assert_eq!(t.elapsed_ms, 400);
    t.tick(100);
    assert!(t.just_finished);
    assert_eq!(t.elapsed_ms, 0);
}

#[test]
fn reset_and_set_duration() {
    let mut t = Timer::new(500, true);
    t.tick(400);
    t.set_duration(300);
    assert_eq!(t.duration_ms, 300);
    assert_eq!(t.elapsed_ms, 400);
    t.reset();
    assert_eq!(t.elapsed_ms, 0);
    assert!(!t.finished);
}
