//! Plane geometry for the collision engine: fixed-point points and vectors,
//! axis-aligned box overlap and radius tests.
//!
//! All coordinates are fixed-point: one world unit is `SCALE` (1000) here, so
//! `10.5` world units is `10_500`. Box tests use strict inequalities: boxes
//! that merely touch along an edge do not overlap.

use vstd::prelude::*;

verus! {

/// Fixed-point scale: stored coordinates per world unit.
pub const SCALE: i64 = 1000;

/// Bound on coordinates accepted by the radius test, chosen so that squared
/// distances of in-range points fit in an `i128`.
pub const COORD_LIMIT: i64 = 2_000_000_000_000_000_000;

/// The coordinate is within the range the radius test accepts.
pub open spec fn coord_ok(c: int) -> bool {
    -COORD_LIMIT <= c <= COORD_LIMIT
}

/// Both coordinates of the point are within range.
pub open spec fn pos_ok(p: Vec2i) -> bool {
    coord_ok(p.x as int) && coord_ok(p.y as int)
}

/// A 2-D point or vector in fixed-point world coordinates.
#[derive(Clone, Copy, PartialEq, Eq, Structural, Debug)]
pub struct Vec2i {
    pub x: i64,
    pub y: i64,
}

impl Vec2i {
    pub fn new(x: i64, y: i64) -> (v: Vec2i)
        ensures
            v == (Vec2i { x, y }),
    {
        Vec2i { x, y }
    }
}

/// The squared Euclidean distance between two points, as a mathematical integer.
pub open spec fn dist_sq(a: Vec2i, b: Vec2i) -> int {
    (a.x - b.x) * (a.x - b.x) + (a.y - b.y) * (a.y - b.y)
}

/// Two axis-aligned boxes, each given by its center and full extent, overlap
/// on both axes with strict inequalities. To avoid halving the extents the
/// comparison is carried out at doubled coordinates: the box spans
/// `[2c - s, 2c + s]` there.
pub open spec fn aabb_overlap(ca: Vec2i, sa: Vec2i, cb: Vec2i, sb: Vec2i) -> bool {
    &&& 2 * ca.x - sa.x < 2 * cb.x + sb.x
    &&& 2 * ca.x + sa.x > 2 * cb.x - sb.x
    &&& 2 * ca.y - sa.y < 2 * cb.y + sb.y
    &&& 2 * ca.y + sa.y > 2 * cb.y - sb.y
}

/// A point lies strictly inside the axis-aligned box with center `cb` and
/// full extent `sb` (again at doubled coordinates).
pub open spec fn point_in_aabb(p: Vec2i, cb: Vec2i, sb: Vec2i) -> bool {
    &&& 2 * cb.x - sb.x < 2 * p.x < 2 * cb.x + sb.x
    &&& 2 * cb.y - sb.y < 2 * p.y < 2 * cb.y + sb.y
}

/// The points lie within (strictly less than) `radius` of each other.
pub open spec fn within_radius(a: Vec2i, b: Vec2i, radius: int) -> bool {
    dist_sq(a, b) < radius * radius
}

/// Axis-aligned overlap test between the box centered at `ca` with extent `sa`
/// and the box centered at `cb` with extent `sb`. Touching edges do not count.
pub fn overlaps_aabb(ca: Vec2i, sa: Vec2i, cb: Vec2i, sb: Vec2i) -> (r: bool)
    ensures
        r == aabb_overlap(ca, sa, cb, sb),
{
    let ax_lo: i128 = 2 * ca.x as i128 - sa.x as i128;
    let ax_hi: i128 = 2 * ca.x as i128 + sa.x as i128;
    let ay_lo: i128 = 2 * ca.y as i128 - sa.y as i128;
    let ay_hi: i128 = 2 * ca.y as i128 + sa.y as i128;
    let bx_lo: i128 = 2 * cb.x as i128 - sb.x as i128;
    let bx_hi: i128 = 2 * cb.x as i128 + sb.x as i128;
    let by_lo: i128 = 2 * cb.y as i128 - sb.y as i128;
    let by_hi: i128 = 2 * cb.y as i128 + sb.y as i128;
    ax_lo < bx_hi && ax_hi > bx_lo && ay_lo < by_hi && ay_hi > by_lo
}

/// The point `p` lies strictly inside the box centered at `cb` with extent `sb`.
pub fn point_in_box(p: Vec2i, cb: Vec2i, sb: Vec2i) -> (r: bool)
    ensures
        r == point_in_aabb(p, cb, sb),
{
    let px: i128 = 2 * p.x as i128;
    let py: i128 = 2 * p.y as i128;
    let bx_lo: i128 = 2 * cb.x as i128 - sb.x as i128;
    let bx_hi: i128 = 2 * cb.x as i128 + sb.x as i128;
    let by_lo: i128 = 2 * cb.y as i128 - sb.y as i128;
    let by_hi: i128 = 2 * cb.y as i128 + sb.y as i128;
    bx_lo < px && px < bx_hi && by_lo < py && py < by_hi
}

/// Euclidean distance test: the two points are strictly closer than `radius`.
/// Compared on squares, which is exact for integers.
pub fn points_within_radius(a: Vec2i, b: Vec2i, radius: i64) -> (r: bool)
    requires
        pos_ok(a),
        pos_ok(b),
        0 <= radius <= COORD_LIMIT,
    ensures
        r == within_radius(a, b, radius as int),
{
    let dx: i128 = a.x as i128 - b.x as i128;
    let dy: i128 = a.y as i128 - b.y as i128;
    proof {
        assert(dx * dx <= (4 * COORD_LIMIT as int) * (4 * COORD_LIMIT as int))
            by (nonlinear_arith)
            requires -2 * COORD_LIMIT as int <= dx <= 2 * COORD_LIMIT as int;
        assert(dy * dy <= (4 * COORD_LIMIT as int) * (4 * COORD_LIMIT as int))
            by (nonlinear_arith)
            requires -2 * COORD_LIMIT as int <= dy <= 2 * COORD_LIMIT as int;
        assert(0 <= dx * dx && 0 <= dy * dy) by (nonlinear_arith);
        assert((radius as int) * (radius as int) <= (COORD_LIMIT as int) * (COORD_LIMIT as int))
            by (nonlinear_arith)
            requires 0 <= radius as int <= COORD_LIMIT as int;
    }
    let rr: i128 = radius as i128 * radius as i128;
    dx * dx + dy * dy < rr
}

} // verus!
