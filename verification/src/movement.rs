//! Entity movement with whole-move collision rejection.
//!
//! A mover first computes its proposed new position from its velocity and
//! the elapsed time, then tests the proposed bounding box against every
//! wall; if any wall overlaps, the whole move is discarded for this tick.
//! There is no sliding and no per-axis resolution: walking diagonally into
//! a corner freezes the mover rather than sliding along the wall; that
//! coarseness is deliberate.

use vstd::prelude::*;
use crate::components::{
    DT_LIMIT, Player, STEP_LIMIT, VEL_LIMIT, Wall, Zombie, pos_within, speed_wf,
};
use crate::geom::{Vec2i, aabb_overlap, overlaps_aabb};
use crate::num::{
    isqrt, lemma_component_le_sqrt, lemma_scale_ratio_bound, scale, scale_spec, sqrt_floor,
};
use crate::world::World;
use vstd::arithmetic::div_mod::lemma_div_is_ordered;

verus! {

/// Full extent of the player's bounding box.
pub const PLAYER_SIZE: i64 = 10_000;

/// Zombie pursuit speed, in stored units per second.
pub const ZOMBIE_SPEED: u64 = 80_000;

/// Thousandths of the unit diagonal component (1 / sqrt 2).
pub const DIAG_FACTOR: i64 = 707;

/// Signed axis intent from a pair of opposing keys.
pub open spec fn dir_of(pos_key: bool, neg_key: bool) -> int {
    (if pos_key { 1int } else { 0int }) - (if neg_key { 1int } else { 0int })
}

/// Distance covered along each pressed axis in `dt` milliseconds; a
/// diagonal intent is normalized before scaling.
pub open spec fn step_len(speed: int, diagonal: bool, dt: int) -> int {
    let sp = if diagonal { (speed * DIAG_FACTOR) / 1000 } else { speed };
    (sp * dt) / 1000
}

/// Some wall overlaps the box with center `c` and extent `s`.
pub open spec fn hits_any_wall(c: Vec2i, s: Vec2i, walls: Seq<Wall>) -> bool {
    exists|i: int|
        0 <= i < walls.len() && aabb_overlap(c, s, (#[trigger] walls[i]).pos, walls[i].size)
}

/// Where the player ends up: the proposed position unless a wall rejects
/// the whole move.
pub open spec fn player_move_dest(
    p: Player,
    walls: Seq<Wall>,
    up: bool,
    down: bool,
    left: bool,
    right: bool,
    dt: int,
) -> Vec2i {
    let dx = dir_of(right, left);
    let dy = dir_of(up, down);
    let step = step_len(p.speed.0 as int, dx != 0 && dy != 0, dt);
    let proposed = Vec2i { x: (p.pos.x + dx * step) as i64, y: (p.pos.y + dy * step) as i64 };
    if hits_any_wall(proposed, Vec2i { x: PLAYER_SIZE, y: PLAYER_SIZE }, walls) {
        p.pos
    } else {
        proposed
    }
}

/// Where a zombie pursuing a player at `target` ends up: a step of
/// `ZOMBIE_SPEED` along the normalized direction to the target, unless a
/// wall rejects it. A zombie already at the target does not move.
pub open spec fn zombie_chase_dest(z: Zombie, target: Vec2i, walls: Seq<Wall>, dt: int) -> Vec2i {
    let dx = target.x - z.pos.x;
    let dy = target.y - z.pos.y;
    let dist = sqrt_floor((dx * dx + dy * dy) as nat);
    if dist == 0 {
        z.pos
    } else {
        let num = ZOMBIE_SPEED * dt;
        let sx = scale_spec(dx, num as int, dist as int * 1000);
        let sy = scale_spec(dy, num as int, dist as int * 1000);
        let proposed = Vec2i { x: (z.pos.x + sx) as i64, y: (z.pos.y + sy) as i64 };
        if hits_any_wall(proposed, Vec2i { x: z.size, y: z.size }, walls) {
            z.pos
        } else {
            proposed
        }
    }
}

/// The per-axis step is nonnegative and below `STEP_LIMIT`.
pub proof fn lemma_step_len_bound(speed: int, diagonal: bool, dt: int)
    requires
        0 <= speed <= VEL_LIMIT,
        0 <= dt <= DT_LIMIT,
    ensures
        0 <= step_len(speed, diagonal, dt) <= STEP_LIMIT,
{
    let sp = if diagonal { (speed * DIAG_FACTOR) / 1000 } else { speed as int };
    assert(0 <= speed * DIAG_FACTOR <= VEL_LIMIT * DIAG_FACTOR) by (nonlinear_arith)
        requires 0 <= speed <= VEL_LIMIT;
    lemma_div_is_ordered(speed * DIAG_FACTOR, VEL_LIMIT * DIAG_FACTOR, 1000);
    assert(0 <= (speed * DIAG_FACTOR) / 1000) by (nonlinear_arith)
        requires 0 <= speed * DIAG_FACTOR;
    assert(0 <= sp <= VEL_LIMIT);
    assert(0 <= sp * dt <= VEL_LIMIT * DT_LIMIT) by (nonlinear_arith)
        requires 0 <= sp <= VEL_LIMIT, 0 <= dt <= DT_LIMIT;
    lemma_div_is_ordered(sp * dt, VEL_LIMIT * DT_LIMIT, 1000);
    assert(0 <= (sp * dt) / 1000) by (nonlinear_arith)
        requires 0 <= sp * dt;
}

/// Rejected-move invariant for the player: a move never ends overlapping a
/// wall it did not already overlap.
pub proof fn lemma_player_move_respects_walls(
    p: Player,
    walls: Seq<Wall>,
    up: bool,
    down: bool,
    left: bool,
    right: bool,
    dt: int,
    i: int,
)
    requires
        0 <= i < walls.len(),
        !aabb_overlap(p.pos, Vec2i { x: PLAYER_SIZE, y: PLAYER_SIZE }, walls[i].pos, walls[i].size),
    ensures
        !aabb_overlap(
            player_move_dest(p, walls, up, down, left, right, dt),
            Vec2i { x: PLAYER_SIZE, y: PLAYER_SIZE },
            walls[i].pos,
            walls[i].size,
        ),
{
}

/// Rejected-move invariant for a pursuing zombie, against its own bounding
/// box.
pub proof fn lemma_zombie_chase_respects_walls(
    z: Zombie,
    target: Vec2i,
    walls: Seq<Wall>,
    dt: int,
    i: int,
)
    requires
        0 <= i < walls.len(),
        !aabb_overlap(z.pos, Vec2i { x: z.size, y: z.size }, walls[i].pos, walls[i].size),
    ensures
        !aabb_overlap(
            zombie_chase_dest(z, target, walls, dt),
            Vec2i { x: z.size, y: z.size },
            walls[i].pos,
            walls[i].size,
        ),
{
}

/// A player move stays within the old position bound plus one step.
pub proof fn lemma_player_move_dest_within(
    p: Player,
    walls: Seq<Wall>,
    up: bool,
    down: bool,
    left: bool,
    right: bool,
    dt: int,
    b: int,
)
    requires
        speed_wf(p.speed),
        0 <= dt <= DT_LIMIT,
        0 <= b,
        b + STEP_LIMIT <= i64::MAX,
        pos_within(p.pos, b),
    ensures
        pos_within(player_move_dest(p, walls, up, down, left, right, dt), b + STEP_LIMIT),
{
    let dx = dir_of(right, left);
    let dy = dir_of(up, down);
    let step = step_len(p.speed.0 as int, dx != 0 && dy != 0, dt);
    lemma_step_len_bound(p.speed.0 as int, dx != 0 && dy != 0, dt);
    assert(-step <= dx * step <= step && -step <= dy * step <= step) by (nonlinear_arith)
        requires
            0 <= step,
            dx == 1 || dx == 0 || dx == -1,
            dy == 1 || dy == 0 || dy == -1;
}

/// A zombie chase step stays within the old position bound plus one step.
pub proof fn lemma_zombie_chase_dest_within(
    z: Zombie,
    target: Vec2i,
    walls: Seq<Wall>,
    dt: int,
    b: int,
)
    requires
        0 <= dt <= DT_LIMIT,
        0 <= b,
        b + STEP_LIMIT <= i64::MAX,
        pos_within(z.pos, b),
    ensures
        pos_within(zombie_chase_dest(z, target, walls, dt), b + STEP_LIMIT),
{
    let dx = target.x - z.pos.x;
    let dy = target.y - z.pos.y;
    let dist = sqrt_floor((dx * dx + dy * dy) as nat);
    if dist != 0 {
        let num = ZOMBIE_SPEED * dt;
        lemma_component_le_sqrt(dx, dy);
        lemma_component_le_sqrt(dy, dx);
        assert((dy * dy + dx * dx) == (dx * dx + dy * dy));
        lemma_scale_ratio_bound(dx, num as int, dist as int, 1000);
        lemma_scale_ratio_bound(dy, num as int, dist as int, 1000);
        lemma_div_is_ordered(num as int, 80_000_000_000int, 1000);
    }
}

/// Does any wall overlap the box with center `c` and extent `s`?
fn overlaps_any_wall(walls: &Vec<Wall>, c: Vec2i, s: Vec2i) -> (r: bool)
    ensures
        r == hits_any_wall(c, s, walls@),
{
    let n = walls.len();
    let mut i: usize = 0;
    while i < n
        invariant
            0 <= i <= n == walls@.len(),
            forall|j: int|
                0 <= j < i ==> !aabb_overlap(c, s, (#[trigger] walls@[j]).pos, walls@[j].size),
        decreases n - i,
    {
        let w = walls[i];
        if overlaps_aabb(c, s, w.pos, w.size) {
            return true;
        }
        i = i + 1;
    }
    false
}

/// Move the player according to the sampled movement keys. The whole move
/// is rejected if the proposed bounding box would overlap any wall. Does
/// nothing when no player is present.
pub fn player_movement(world: &mut World, up: bool, down: bool, left: bool, right: bool, dt: u64)
    requires
        old(world).player matches Some(p) ==> {
            &&& speed_wf(p.speed)
            &&& pos_within(p.pos, 4 * crate::components::POS_LIMIT as int)
        },
        dt <= DT_LIMIT,
    ensures
        final(world).zombies@ == old(world).zombies@,
        final(world).projectiles@ == old(world).projectiles@,
        final(world).walls@ == old(world).walls@,
        old(world).player is None ==> final(world).player == old(world).player,
        old(world).player matches Some(p) ==> final(world).player == Some(
            Player {
                pos: player_move_dest(p, old(world).walls@, up, down, left, right, dt as int),
                ..p
            },
        ),
{
    let player = match &world.player {
        None => { return; },
        Some(p) => *p,
    };
    let dx: i64 = (if right { 1i64 } else { 0i64 }) - (if left { 1i64 } else { 0i64 });
    let dy: i64 = (if up { 1i64 } else { 0i64 }) - (if down { 1i64 } else { 0i64 });
    let diagonal = dx != 0 && dy != 0;
    let sp: u64 = if diagonal {
        (player.speed.0 as u64) * (DIAG_FACTOR as u64) / 1000
    } else {
        player.speed.0 as u64
    };
    proof {
        if diagonal {
            lemma_div_is_ordered(
                player.speed.0 as int * DIAG_FACTOR as int,
                VEL_LIMIT as int * DIAG_FACTOR as int,
                1000,
            );
            assert(0 <= player.speed.0 as int * DIAG_FACTOR as int) by (nonlinear_arith)
                requires 0 <= player.speed.0 as int;
        }
        assert(sp <= VEL_LIMIT as u64);
        assert(sp as int * dt as int <= 1_000_000_000_000int) by (nonlinear_arith)
            requires 0 <= sp as int <= 1_000_000, 0 <= dt as int <= 1_000_000;
        lemma_div_is_ordered(sp as int * dt as int, 1_000_000_000_000int, 1000);
        lemma_step_len_bound(player.speed.0 as int, diagonal, dt as int);
    }
    let step_u: u64 = sp * dt / 1000;
    proof {
        assert(step_u as int == step_len(player.speed.0 as int, diagonal, dt as int));
    }
    let step: i64 = step_u as i64;
    let px = if dx == 1 {
        player.pos.x + step
    } else if dx == -1 {
        player.pos.x - step
    } else {
        player.pos.x
    };
    let py = if dy == 1 {
        player.pos.y + step
    } else if dy == -1 {
        player.pos.y - step
    } else {
        player.pos.y
    };
    let proposed = Vec2i { x: px, y: py };
    proof {
        let sdx = dir_of(right, left);
        let sdy = dir_of(up, down);
        let sstep = step_len(player.speed.0 as int, diagonal, dt as int);
        assert(sdx == dx as int && sdy == dy as int && sstep == step as int);
        assert(sdx * sstep == (if dx == 1 { sstep } else if dx == -1 { -sstep } else { 0int }))
            by (nonlinear_arith)
            requires sdx == (if dx == 1 { 1int } else if dx == -1 { -1int } else { 0int });
        assert(sdy * sstep == (if dy == 1 { sstep } else if dy == -1 { -sstep } else { 0int }))
            by (nonlinear_arith)
            requires sdy == (if dy == 1 { 1int } else if dy == -1 { -1int } else { 0int });
        assert(px as int == player.pos.x + sdx * sstep);
        assert(py as int == player.pos.y + sdy * sstep);
    }
    let blocked = overlaps_any_wall(&world.walls, proposed, Vec2i { x: PLAYER_SIZE, y: PLAYER_SIZE });
    let dest = if blocked { player.pos } else { proposed };
    world.player = Some(Player { pos: dest, ..player });
}

/// Advance every zombie one pursuit step toward the player, each step
/// subject to whole-move rejection against the walls. Does nothing when no
/// player is present.
pub fn zombie_chase(world: &mut World, dt: u64)
    requires
        old(world).player matches Some(p) ==> pos_within(p.pos, 4 * crate::components::POS_LIMIT as int),
        forall|i: int|
            0 <= i < old(world).zombies@.len() ==> pos_within(
                (#[trigger] old(world).zombies@[i]).pos,
                4 * crate::components::POS_LIMIT as int,
            ),
        dt <= DT_LIMIT,
    ensures
        final(world).player == old(world).player,
        final(world).projectiles@ == old(world).projectiles@,
        final(world).walls@ == old(world).walls@,
        old(world).player is None ==> final(world).zombies@ == old(world).zombies@,
        old(world).player matches Some(p) ==> {
            &&& final(world).zombies@.len() == old(world).zombies@.len()
            &&& forall|i: int|
                0 <= i < old(world).zombies@.len() ==> final(world).zombies@[i] == (Zombie {
                    pos: zombie_chase_dest(#[trigger] old(world).zombies@[i], p.pos, old(world).walls@, dt as int),
                    ..old(world).zombies@[i]
                })
        },
{
    let target = match &world.player {
        None => { return; },
        Some(p) => p.pos,
    };
    let n = world.zombies.len();
    let mut out: Vec<Zombie> = Vec::new();
    let mut i: usize = 0;
    while i < n
        invariant
            0 <= i <= n == world.zombies@.len(),
            world.zombies@ == old(world).zombies@,
            world.walls@ == old(world).walls@,
            world.player == old(world).player,
            world.projectiles@ == old(world).projectiles@,
            old(world).player matches Some(p) && p.pos == target,
            pos_within(target, 4 * crate::components::POS_LIMIT as int),
            forall|j: int|
                0 <= j < n ==> pos_within(
                    (#[trigger] world.zombies@[j]).pos,
                    4 * crate::components::POS_LIMIT as int,
                ),
            dt <= DT_LIMIT,
            out@.len() == i,
            forall|j: int|
                0 <= j < i ==> out@[j] == (Zombie {
                    pos: zombie_chase_dest(#[trigger] world.zombies@[j], target, world.walls@, dt as int),
                    ..world.zombies@[j]
                }),
        decreases n - i,
    {
        let z = world.zombies[i];
        let dxw: i128 = target.x as i128 - z.pos.x as i128;
        let dyw: i128 = target.y as i128 - z.pos.y as i128;
        proof {
            let lim = 8 * crate::components::POS_LIMIT as int;
            assert(dxw * dxw <= lim * lim) by (nonlinear_arith)
                requires -lim <= dxw <= lim;
            assert(dyw * dyw <= lim * lim) by (nonlinear_arith)
                requires -lim <= dyw <= lim;
            assert(0 <= dxw * dxw && 0 <= dyw * dyw) by (nonlinear_arith);
        }
        let dsq: i128 = dxw * dxw + dyw * dyw;
        let dist_u: u128 = isqrt(dsq as u128);
        let dest: Vec2i;
        if dist_u == 0 {
            dest = z.pos;
            proof {
                assert(zombie_chase_dest(z, target, world.walls@, dt as int) == z.pos);
            }
        } else {
            proof {
                assert(dist_u <= 12_000_000_000_000u128) by (nonlinear_arith)
                    requires
                        dist_u * dist_u <= dsq,
                        0 <= dsq <= 2 * (8 * crate::components::POS_LIMIT as int) * (8 * crate::components::POS_LIMIT as int);
                lemma_component_le_sqrt(dxw as int, dyw as int);
                lemma_component_le_sqrt(dyw as int, dxw as int);
                assert((dyw * dyw + dxw * dxw) == (dxw * dxw + dyw * dyw));
            }
            let den: u64 = (dist_u as u64) * 1000;
            let num: u64 = ZOMBIE_SPEED * dt;
            let dx64: i64 = dxw as i64;
            let dy64: i64 = dyw as i64;
            proof {
                let d = dist_u as int;
                let mx = if dx64 as int >= 0 { dx64 as int } else { -(dx64 as int) };
                let my = if dy64 as int >= 0 { dy64 as int } else { -(dy64 as int) };
                assert(mx <= d && my <= d);
                assert(mx * num <= d * num && my * num <= d * num) by (nonlinear_arith)
                    requires 0 <= mx <= d, 0 <= my <= d, 0 <= num as int;
                assert(d * num <= (d * 1000) * i64::MAX) by (nonlinear_arith)
                    requires 1 <= d, 0 <= num as int <= 1000 * (i64::MAX as int);
                lemma_scale_ratio_bound(dx64 as int, num as int, d, 1000);
                lemma_scale_ratio_bound(dy64 as int, num as int, d, 1000);
                lemma_div_is_ordered(num as int, 80_000_000_000int, 1000);
            }
            let sx = scale(dx64, num, den);
            let sy = scale(dy64, num, den);
            let prop = Vec2i { x: z.pos.x + sx, y: z.pos.y + sy };
            let blocked = overlaps_any_wall(&world.walls, prop, Vec2i { x: z.size, y: z.size });
            dest = if blocked { z.pos } else { prop };
            proof {
                assert(zombie_chase_dest(z, target, world.walls@, dt as int) == dest);
            }
        }
        out.push(Zombie { pos: dest, ..z });
        i = i + 1;
    }
    world.zombies = out;
}

} // verus!
