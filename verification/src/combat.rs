//! Combat resolution: projectile flight and expiry, projectile impacts on
//! walls and zombies, death and reward, and contact damage to the player.
//!
//! The phases run in this order inside a tick: projectile movement, then
//! lifetime expiry, then impact resolution, then contact damage. A zombie
//! whose health is driven to zero or below is removed in the same phase and
//! its bounty is credited exactly once, so a later projectile of the same
//! tick can no longer hit it.

use vstd::prelude::*;
use crate::components::{
    DT_LIMIT, Health, POS_LIMIT, Player, Projectile, STEP_LIMIT, VEL_LIMIT, Wall, Zombie,
    pos_within, projectile_wf, zombie_wf,
};
use crate::geom::{Vec2i, point_in_aabb, point_in_box, points_within_radius, within_radius};
use crate::num::{lemma_scale_abs_le, scale, scale_spec};
use crate::shop::Wallet;
use crate::timer::{Timer, timer_after_tick, timer_wf};
use crate::world::{World, projectiles_wf, zombies_wf};
use vstd::arithmetic::div_mod::lemma_div_is_ordered;

verus! {

/// Radius of a projectile's circular hull.
pub const PROJECTILE_RADIUS: i64 = 2_500;

/// Distance within which a zombie deals contact damage to the player.
pub const CONTACT_RADIUS: i64 = 32_000;

/// Contact damage per zombie, in fixed-point hit points per millisecond
/// (ten hit points per second).
pub const CONTACT_DAMAGE_PER_MS: i64 = 10;

/// A projectile after flying for `dt` milliseconds.
pub open spec fn projectile_moved(p: Projectile, dt: int) -> Projectile {
    Projectile {
        pos: Vec2i {
            x: (p.pos.x + scale_spec(p.velocity.x as int, dt, 1000)) as i64,
            y: (p.pos.y + scale_spec(p.velocity.y as int, dt, 1000)) as i64,
        },
        ..p
    }
}

/// Advance every projectile along its velocity.
pub fn projectile_movement(world: &mut World, dt: u64)
    requires
        projectiles_wf(old(world).projectiles@),
        forall|i: int|
            0 <= i < old(world).projectiles@.len() ==> pos_within(
                (#[trigger] old(world).projectiles@[i]).pos,
                4 * POS_LIMIT as int,
            ),
        dt <= DT_LIMIT,
    ensures
        final(world).player == old(world).player,
        final(world).zombies@ == old(world).zombies@,
        final(world).walls@ == old(world).walls@,
        final(world).projectiles@.len() == old(world).projectiles@.len(),
        forall|i: int|
            0 <= i < old(world).projectiles@.len() ==> final(world).projectiles@[i]
                == projectile_moved(#[trigger] old(world).projectiles@[i], dt as int),
{
    let n = world.projectiles.len();
    let mut out: Vec<Projectile> = Vec::new();
    let mut i: usize = 0;
    while i < n
        invariant
            0 <= i <= n == world.projectiles@.len(),
            world.projectiles@ == old(world).projectiles@,
            world.zombies@ == old(world).zombies@,
            world.walls@ == old(world).walls@,
            world.player == old(world).player,
            projectiles_wf(world.projectiles@),
            forall|j: int|
                0 <= j < n ==> pos_within(
                    (#[trigger] world.projectiles@[j]).pos,
                    4 * POS_LIMIT as int,
                ),
            dt <= DT_LIMIT,
            out@.len() == i,
            forall|j: int|
                0 <= j < i ==> out@[j] == projectile_moved(
                    #[trigger] world.projectiles@[j],
                    dt as int,
                ),
        decreases n - i,
    {
        let p = world.projectiles[i];
        proof {
            assert(projectile_wf(world.projectiles@[i as int]));
            lemma_scale_abs_le(p.velocity.x as int, dt as int, 1000, VEL_LIMIT as int);
            lemma_scale_abs_le(p.velocity.y as int, dt as int, 1000, VEL_LIMIT as int);
            assert(VEL_LIMIT as int * dt <= 1_000_000_000_000int) by (nonlinear_arith)
                requires 0 <= dt <= 1_000_000;
            lemma_div_is_ordered(VEL_LIMIT as int * dt, 1_000_000_000_000int, 1000);
        }
        let sx = scale(p.velocity.x, dt, 1000);
        let sy = scale(p.velocity.y, dt, 1000);
        let moved = Projectile { pos: Vec2i { x: p.pos.x + sx, y: p.pos.y + sy }, ..p };
        out.push(moved);
        i = i + 1;
    }
    world.projectiles = out;
}

/// The projectiles surviving a lifetime tick of `dt`, each with its timer
/// advanced; a projectile whose one-shot timer finishes is dropped.
pub open spec fn cleanup_spec(ps: Seq<Projectile>, dt: u64) -> Seq<Projectile>
    decreases ps.len(),
{
    if ps.len() == 0 {
        Seq::empty()
    } else {
        let t = timer_after_tick(ps[0].lifetime, dt);
        let rest = cleanup_spec(ps.drop_first(), dt);
        if t.finished {
            rest
        } else {
            seq![Projectile { lifetime: t, ..ps[0] }] + rest
        }
    }
}

/// Appending a projectile appends its survivor (if any) to the cleanup.
proof fn lemma_cleanup_snoc(ps: Seq<Projectile>, p: Projectile, dt: u64)
    ensures
        cleanup_spec(ps.push(p), dt) == cleanup_spec(ps, dt) + (if timer_after_tick(
            p.lifetime,
            dt,
        ).finished {
            Seq::<Projectile>::empty()
        } else {
            seq![Projectile { lifetime: timer_after_tick(p.lifetime, dt), ..p }]
        }),
    decreases ps.len(),
{
    let tail = if timer_after_tick(p.lifetime, dt).finished {
        Seq::<Projectile>::empty()
    } else {
        seq![Projectile { lifetime: timer_after_tick(p.lifetime, dt), ..p }]
    };
    if ps.len() == 0 {
        assert(ps.push(p).drop_first() =~= ps);
        assert(cleanup_spec(ps.push(p), dt) =~= cleanup_spec(ps, dt) + tail);
    } else {
        assert(ps.push(p).drop_first() =~= ps.drop_first().push(p));
        lemma_cleanup_snoc(ps.drop_first(), p, dt);
        assert(ps.push(p)[0] == ps[0]);
        if !timer_after_tick(ps[0].lifetime, dt).finished {
            assert((seq![
                Projectile { lifetime: timer_after_tick(ps[0].lifetime, dt), ..ps[0] },
            ] + (cleanup_spec(ps.drop_first(), dt) + tail)) =~= (seq![
                Projectile { lifetime: timer_after_tick(ps[0].lifetime, dt), ..ps[0] },
            ] + cleanup_spec(ps.drop_first(), dt)) + tail);
        }
    }
}

/// Advance every projectile's lifetime and drop the ones that expire.
pub fn cleanup_projectiles(world: &mut World, dt: u64)
    requires
        projectiles_wf(old(world).projectiles@),
        dt <= DT_LIMIT,
    ensures
        final(world).player == old(world).player,
        final(world).zombies@ == old(world).zombies@,
        final(world).walls@ == old(world).walls@,
        final(world).projectiles@ == cleanup_spec(old(world).projectiles@, dt),
{
    let n = world.projectiles.len();
    let mut out: Vec<Projectile> = Vec::new();
    let mut i: usize = 0;
    proof {
        assert(world.projectiles@.take(0) =~= Seq::<Projectile>::empty());
    }
    while i < n
        invariant
            0 <= i <= n == world.projectiles@.len(),
            world.projectiles@ == old(world).projectiles@,
            world.zombies@ == old(world).zombies@,
            world.walls@ == old(world).walls@,
            world.player == old(world).player,
            projectiles_wf(world.projectiles@),
            dt <= DT_LIMIT,
            out@ == cleanup_spec(world.projectiles@.take(i as int), dt),
        decreases n - i,
    {
        let p = world.projectiles[i];
        proof {
            assert(projectile_wf(world.projectiles@[i as int]));
            lemma_cleanup_snoc(world.projectiles@.take(i as int), p, dt);
            assert(world.projectiles@.take(i as int).push(p) =~= world.projectiles@.take(
                i as int + 1,
            ));
        }
        let mut lifetime = p.lifetime;
        lifetime.tick(dt);
        if !lifetime.finished {
            out.push(Projectile { lifetime, ..p });
            proof {
                assert(out@ =~= cleanup_spec(world.projectiles@.take(i as int), dt) + seq![
                    Projectile { lifetime: timer_after_tick(p.lifetime, dt), ..p },
                ]);
            }
        } else {
            proof {
                assert(out@ =~= cleanup_spec(world.projectiles@.take(i as int), dt)
                    + Seq::<Projectile>::empty());
            }
        }
        i = i + 1;
    }
    proof {
        assert(world.projectiles@.take(n as int) =~= world.projectiles@);
    }
    world.projectiles = out;
}

/// A projectile flight step stays within the old position bound plus one
/// step.
pub proof fn lemma_projectile_moved_within(p: Projectile, dt: int, b: int)
    requires
        projectile_wf(p),
        0 <= dt <= DT_LIMIT,
        0 <= b,
        b + STEP_LIMIT <= i64::MAX,
        pos_within(p.pos, b),
    ensures
        pos_within(projectile_moved(p, dt).pos, b + STEP_LIMIT),
{
    lemma_scale_abs_le(p.velocity.x as int, dt, 1000, VEL_LIMIT as int);
    lemma_scale_abs_le(p.velocity.y as int, dt, 1000, VEL_LIMIT as int);
    assert(VEL_LIMIT as int * dt <= 1_000_000_000_000int) by (nonlinear_arith)
        requires 0 <= dt <= 1_000_000;
    lemma_div_is_ordered(VEL_LIMIT as int * dt, 1_000_000_000_000int, 1000);
}

/// Lifetime cleanup keeps every survivor well formed and within the same
/// position bound, and never grows the sequence.
pub proof fn lemma_cleanup_props(ps: Seq<Projectile>, dt: u64, b: int)
    requires
        projectiles_wf(ps),
        dt <= DT_LIMIT,
        forall|k: int| 0 <= k < ps.len() ==> pos_within((#[trigger] ps[k]).pos, b),
    ensures
        projectiles_wf(cleanup_spec(ps, dt)),
        forall|k: int|
            0 <= k < cleanup_spec(ps, dt).len() ==> pos_within(
                (#[trigger] cleanup_spec(ps, dt)[k]).pos,
                b,
            ),
        cleanup_spec(ps, dt).len() <= ps.len(),
    decreases ps.len(),
{
    if ps.len() > 0 {
        assert(projectile_wf(ps[0]));
        assert(forall|k: int|
            0 <= k < ps.drop_first().len() ==> #[trigger] ps.drop_first()[k] == ps[k + 1]);
        lemma_cleanup_props(ps.drop_first(), dt, b);
        let t = timer_after_tick(ps[0].lifetime, dt);
        if !t.finished {
            let h = Projectile { lifetime: t, ..ps[0] };
            assert(projectile_wf(h));
            assert(forall|k: int|
                0 <= k < cleanup_spec(ps, dt).len() ==> #[trigger] cleanup_spec(ps, dt)[k] == (
                if k == 0 {
                    h
                } else {
                    cleanup_spec(ps.drop_first(), dt)[k - 1]
                }));
        }
    }
}

/// Total bounty is never negative.
pub proof fn lemma_sum_rewards_nonneg(zs: Seq<Zombie>)
    ensures
        0 <= sum_rewards(zs),
    decreases zs.len(),
{
    if zs.len() > 0 {
        lemma_sum_rewards_nonneg(zs.drop_first());
    }
}

/// Sequences that agree pointwise on bounties carry the same total bounty.
pub proof fn lemma_sum_rewards_pointwise(a: Seq<Zombie>, b: Seq<Zombie>)
    requires
        a.len() == b.len(),
        forall|k: int| 0 <= k < a.len() ==> (#[trigger] a[k]).money_reward == b[k].money_reward,
    ensures
        sum_rewards(a) == sum_rewards(b),
    decreases a.len(),
{
    if a.len() > 0 {
        assert(forall|k: int|
            0 <= k < a.drop_first().len() ==> (#[trigger] a.drop_first()[k]).money_reward
                == b.drop_first()[k].money_reward) by {
            assert(forall|k: int|
                0 <= k < a.drop_first().len() ==> #[trigger] a.drop_first()[k] == a[k + 1]
                    && b.drop_first()[k] == b[k + 1]);
        }
        lemma_sum_rewards_pointwise(a.drop_first(), b.drop_first());
    }
}

/// The projectiles surviving resolution are all drawn from the incoming
/// ones, so they keep well-formedness and position bounds.
pub proof fn lemma_resolve_projectiles_wf(
    ps: Seq<Projectile>,
    zs: Seq<Zombie>,
    walls: Seq<Wall>,
    b: int,
)
    requires
        projectiles_wf(ps),
        forall|k: int| 0 <= k < ps.len() ==> pos_within((#[trigger] ps[k]).pos, b),
    ensures
        projectiles_wf(resolve_all(ps, zs, walls).0),
        forall|k: int|
            0 <= k < resolve_all(ps, zs, walls).0.len() ==> pos_within(
                (#[trigger] resolve_all(ps, zs, walls).0[k]).pos,
                b,
            ),
    decreases ps.len(),
{
    if ps.len() > 0 {
        let one = resolve_one(ps[0], zs, walls);
        assert(forall|k: int|
            0 <= k < ps.drop_first().len() ==> #[trigger] ps.drop_first()[k] == ps[k + 1]);
        lemma_resolve_projectiles_wf(ps.drop_first(), one.1, walls, b);
        let rest0 = resolve_all(ps.drop_first(), one.1, walls).0;
        if one.0 {
            assert(projectile_wf(ps[0]));
            assert(forall|k: int|
                0 <= k < resolve_all(ps, zs, walls).0.len()
                    ==> #[trigger] resolve_all(ps, zs, walls).0[k] == (if k == 0 {
                    ps[0]
                } else {
                    rest0[k - 1]
                }));
        }
    }
}

/// The credited bounty never exceeds the bounty standing on the field.
pub proof fn lemma_resolve_money_bounded(ps: Seq<Projectile>, zs: Seq<Zombie>, walls: Seq<Wall>, b: int)
    requires
        zombies_wf(zs),
        forall|k: int| 0 <= k < zs.len() ==> pos_within((#[trigger] zs[k]).pos, b),
        projectiles_wf(ps),
    ensures
        0 <= resolve_all(ps, zs, walls).2 <= sum_rewards(zs),
{
    lemma_resolve_all_props(ps, zs, walls, b);
    lemma_sum_rewards_nonneg(resolve_all(ps, zs, walls).1);
}

/// The projectile's point lies inside some wall.
pub open spec fn proj_hits_wall(p: Vec2i, walls: Seq<Wall>) -> bool {
    exists|i: int|
        0 <= i < walls.len() && point_in_aabb(p, (#[trigger] walls[i]).pos, walls[i].size)
}

/// Hit radius of a zombie against a projectile: half its extent plus the
/// projectile's radius.
pub open spec fn zombie_hit_radius(z: Zombie) -> int {
    z.size / 2 + PROJECTILE_RADIUS
}

/// The projectile at `ppos` hits the zombie.
pub open spec fn projectile_hits_zombie(ppos: Vec2i, z: Zombie) -> bool {
    within_radius(ppos, z.pos, zombie_hit_radius(z))
}

/// Index of the first zombie at or after `i` that the projectile hits.
pub open spec fn first_zombie_hit_from(ppos: Vec2i, zs: Seq<Zombie>, i: int) -> Option<int>
    decreases zs.len() - i,
{
    if i < 0 || i >= zs.len() {
        None
    } else if projectile_hits_zombie(ppos, zs[i]) {
        Some(i)
    } else {
        first_zombie_hit_from(ppos, zs, i + 1)
    }
}

/// The zombie after taking a projectile's damage.
pub open spec fn damaged_zombie(z: Zombie, damage: i64) -> Zombie {
    Zombie { health: Health { current: (z.health.current - damage) as i64, ..z.health }, ..z }
}

/// Resolution of one projectile against the walls and the live zombies:
/// whether the projectile survives, the zombies afterwards, and the bounty
/// credited. A wall absorbs the projectile first; otherwise the first
/// zombie hit takes the damage, and dies (paying its bounty exactly once)
/// if its health is driven to zero or below.
pub open spec fn resolve_one(p: Projectile, zs: Seq<Zombie>, walls: Seq<Wall>) -> (
    bool,
    Seq<Zombie>,
    int,
) {
    if proj_hits_wall(p.pos, walls) {
        (false, zs, 0int)
    } else {
        match first_zombie_hit_from(p.pos, zs, 0) {
            None => (true, zs, 0int),
            Some(i) => {
                let z = zs[i];
                if z.health.current - p.damage <= 0 {
                    (false, zs.remove(i), z.money_reward as int)
                } else {
                    (false, zs.update(i, damaged_zombie(z, p.damage)), 0int)
                }
            },
        }
    }
}

/// Resolution of all projectiles in order, each against the zombies left by
/// the ones before it: the surviving projectiles, the zombies afterwards,
/// and the total bounty credited.
pub open spec fn resolve_all(ps: Seq<Projectile>, zs: Seq<Zombie>, walls: Seq<Wall>) -> (
    Seq<Projectile>,
    Seq<Zombie>,
    int,
)
    decreases ps.len(),
{
    if ps.len() == 0 {
        (Seq::<Projectile>::empty(), zs, 0int)
    } else {
        let one = resolve_one(ps[0], zs, walls);
        let rest = resolve_all(ps.drop_first(), one.1, walls);
        ((if one.0 {
            seq![ps[0]] + rest.0
        } else {
            rest.0
        }), rest.1, one.2 + rest.2)
    }
}

/// Total bounty carried by a sequence of zombies.
pub open spec fn sum_rewards(zs: Seq<Zombie>) -> int
    decreases zs.len(),
{
    if zs.len() == 0 {
        0
    } else {
        zs[0].money_reward + sum_rewards(zs.drop_first())
    }
}

/// Removing a zombie removes exactly its bounty from the total.
proof fn lemma_sum_rewards_remove(zs: Seq<Zombie>, i: int)
    requires
        0 <= i < zs.len(),
    ensures
        sum_rewards(zs) == sum_rewards(zs.remove(i)) + zs[i].money_reward,
    decreases zs.len(),
{
    if i == 0 {
        assert(zs.remove(0) =~= zs.drop_first());
    } else {
        assert(zs.remove(i).drop_first() =~= zs.drop_first().remove(i - 1));
        lemma_sum_rewards_remove(zs.drop_first(), i - 1);
        assert(zs.remove(i)[0] == zs[0]);
    }
}

/// Replacing a zombie by one with the same bounty keeps the total.
proof fn lemma_sum_rewards_update(zs: Seq<Zombie>, i: int, z: Zombie)
    requires
        0 <= i < zs.len(),
        z.money_reward == zs[i].money_reward,
    ensures
        sum_rewards(zs.update(i, z)) == sum_rewards(zs),
    decreases zs.len(),
{
    if i == 0 {
        assert(zs.update(0, z).drop_first() =~= zs.drop_first());
    } else {
        assert(zs.update(i, z).drop_first() =~= zs.drop_first().update(i - 1, z));
        lemma_sum_rewards_update(zs.drop_first(), i - 1, z);
        assert(zs.update(i, z)[0] == zs[0]);
    }
}

/// Resolving one projectile preserves well-formedness and position bounds
/// of the zombies, credits a nonnegative bounty, and conserves bounty:
/// whatever the wallet gains, the field loses.
proof fn lemma_resolve_one_props(p: Projectile, zs: Seq<Zombie>, walls: Seq<Wall>, b: int)
    requires
        zombies_wf(zs),
        forall|k: int| 0 <= k < zs.len() ==> pos_within((#[trigger] zs[k]).pos, b),
        projectile_wf(p),
    ensures
        zombies_wf(resolve_one(p, zs, walls).1),
        forall|k: int|
            0 <= k < resolve_one(p, zs, walls).1.len() ==> pos_within(
                (#[trigger] resolve_one(p, zs, walls).1[k]).pos,
                b,
            ),
        0 <= resolve_one(p, zs, walls).2,
        sum_rewards(zs) == sum_rewards(resolve_one(p, zs, walls).1) + resolve_one(p, zs, walls).2,
        resolve_one(p, zs, walls).1.len() <= zs.len(),
{
    let r = resolve_one(p, zs, walls);
    if !proj_hits_wall(p.pos, walls) {
        match first_zombie_hit_from(p.pos, zs, 0) {
            None => {},
            Some(i) => {
                assert(0 <= i < zs.len()) by {
                    lemma_first_hit_in_range(p.pos, zs, 0);
                }
                let z = zs[i];
                if z.health.current - p.damage <= 0 {
                    lemma_sum_rewards_remove(zs, i);
                    assert forall|k: int| 0 <= k < r.1.len() implies zombie_wf(#[trigger] r.1[k])
                        && pos_within(r.1[k].pos, b) by {
                        assert(r.1[k] == (if k < i {
                            zs[k]
                        } else {
                            zs[k + 1]
                        }));
                    }
                } else {
                    let h = damaged_zombie(z, p.damage);
                    lemma_sum_rewards_update(zs, i, h);
                    assert forall|k: int| 0 <= k < r.1.len() implies zombie_wf(#[trigger] r.1[k])
                        && pos_within(r.1[k].pos, b) by {
                        if k != i {
                            assert(r.1[k] == zs[k]);
                        }
                    }
                }
            },
        }
    }
}

/// A found first hit lies inside the sequence.
proof fn lemma_first_hit_in_range(ppos: Vec2i, zs: Seq<Zombie>, i: int)
    ensures
        first_zombie_hit_from(ppos, zs, i) matches Some(j) ==> i <= j < zs.len()
            && projectile_hits_zombie(ppos, zs[j]),
    decreases zs.len() - i,
{
    if 0 <= i < zs.len() && !projectile_hits_zombie(ppos, zs[i]) {
        lemma_first_hit_in_range(ppos, zs, i + 1);
    }
}

/// `lemma_resolve_one_props` lifted over a whole projectile sequence.
pub proof fn lemma_resolve_all_props(ps: Seq<Projectile>, zs: Seq<Zombie>, walls: Seq<Wall>, b: int)
    requires
        zombies_wf(zs),
        forall|k: int| 0 <= k < zs.len() ==> pos_within((#[trigger] zs[k]).pos, b),
        projectiles_wf(ps),
    ensures
        zombies_wf(resolve_all(ps, zs, walls).1),
        forall|k: int|
            0 <= k < resolve_all(ps, zs, walls).1.len() ==> pos_within(
                (#[trigger] resolve_all(ps, zs, walls).1[k]).pos,
                b,
            ),
        0 <= resolve_all(ps, zs, walls).2,
        sum_rewards(zs) == sum_rewards(resolve_all(ps, zs, walls).1) + resolve_all(
            ps,
            zs,
            walls,
        ).2,
        resolve_all(ps, zs, walls).1.len() <= zs.len(),
    decreases ps.len(),
{
    if ps.len() > 0 {
        lemma_resolve_one_props(ps[0], zs, walls, b);
        let one = resolve_one(ps[0], zs, walls);
        assert(projectiles_wf(ps.drop_first())) by {
            assert(forall|k: int|
                0 <= k < ps.drop_first().len() ==> #[trigger] ps.drop_first()[k] == ps[k + 1]);
        }
        lemma_resolve_all_props(ps.drop_first(), one.1, walls, b);
    }
}

/// Does the projectile point sit inside any wall?
fn point_hits_any_wall(walls: &Vec<Wall>, p: Vec2i) -> (r: bool)
    ensures
        r == proj_hits_wall(p, walls@),
{
    let n = walls.len();
    let mut i: usize = 0;
    while i < n
        invariant
            0 <= i <= n == walls@.len(),
            forall|j: int|
                0 <= j < i ==> !point_in_aabb(p, (#[trigger] walls@[j]).pos, walls@[j].size),
        decreases n - i,
    {
        let w = walls[i];
        if point_in_box(p, w.pos, w.size) {
            return true;
        }
        i = i + 1;
    }
    false
}

/// First zombie in order that the projectile at `ppos` hits, if any.
fn find_first_zombie_hit(zombies: &Vec<Zombie>, ppos: Vec2i) -> (r: Option<usize>)
    requires
        zombies_wf(zombies@),
        forall|k: int|
            0 <= k < zombies@.len() ==> pos_within(
                (#[trigger] zombies@[k]).pos,
                8 * POS_LIMIT as int,
            ),
        pos_within(ppos, 8 * POS_LIMIT as int),
    ensures
        match r {
            Some(j) => j < zombies@.len() && first_zombie_hit_from(ppos, zombies@, 0) == Some(
                j as int,
            ),
            None => first_zombie_hit_from(ppos, zombies@, 0) is None,
        },
{
    let n = zombies.len();
    let mut i: usize = 0;
    while i < n
        invariant
            0 <= i <= n == zombies@.len(),
            zombies_wf(zombies@),
            forall|k: int|
                0 <= k < zombies@.len() ==> pos_within(
                    (#[trigger] zombies@[k]).pos,
                    8 * POS_LIMIT as int,
                ),
            pos_within(ppos, 8 * POS_LIMIT as int),
            first_zombie_hit_from(ppos, zombies@, 0) == first_zombie_hit_from(
                ppos,
                zombies@,
                i as int,
            ),
        decreases n - i,
    {
        let z = zombies[i];
        proof {
            assert(zombie_wf(zombies@[i as int]));
        }
        let radius = ((z.size as u64) / 2) as i64 + PROJECTILE_RADIUS;
        if points_within_radius(ppos, z.pos, radius) {
            return Some(i);
        }
        i = i + 1;
    }
    None
}

/// Resolve every projectile, in order, against walls first and then the
/// first zombie hit. Surviving zombies always keep positive health, and
/// bounty is conserved: the wallet gains exactly what the field loses.
pub fn projectile_collision(world: &mut World, wallet: &mut Wallet)
    requires
        zombies_wf(old(world).zombies@),
        projectiles_wf(old(world).projectiles@),
        forall|k: int|
            0 <= k < old(world).zombies@.len() ==> pos_within(
                (#[trigger] old(world).zombies@[k]).pos,
                8 * POS_LIMIT as int,
            ),
        forall|k: int|
            0 <= k < old(world).projectiles@.len() ==> pos_within(
                (#[trigger] old(world).projectiles@[k]).pos,
                8 * POS_LIMIT as int,
            ),
        old(wallet).money + resolve_all(
            old(world).projectiles@,
            old(world).zombies@,
            old(world).walls@,
        ).2 <= u32::MAX,
    ensures
        final(world).player == old(world).player,
        final(world).walls@ == old(world).walls@,
        final(world).projectiles@ == resolve_all(
            old(world).projectiles@,
            old(world).zombies@,
            old(world).walls@,
        ).0,
        final(world).zombies@ == resolve_all(
            old(world).projectiles@,
            old(world).zombies@,
            old(world).walls@,
        ).1,
        final(wallet).money == old(wallet).money + resolve_all(
            old(world).projectiles@,
            old(world).zombies@,
            old(world).walls@,
        ).2,
        zombies_wf(final(world).zombies@),
        final(world).zombies@.len() <= old(world).zombies@.len(),
        sum_rewards(old(world).zombies@) == sum_rewards(final(world).zombies@) + (
        final(wallet).money - old(wallet).money),
{
    let ghost ps = old(world).projectiles@;
    let ghost zs0 = old(world).zombies@;
    let ghost ws = old(world).walls@;
    let ghost m0 = old(wallet).money;
    let ghost full = resolve_all(ps, zs0, ws);
    let n = world.projectiles.len();
    let mut kept: Vec<Projectile> = Vec::new();
    let mut i: usize = 0;
    proof {
        assert(ps.skip(0) =~= ps);
        lemma_resolve_all_props(ps, zs0, ws, 8 * POS_LIMIT as int);
    }
    while i < n
        invariant
            0 <= i <= n == ps.len(),
            world.projectiles@ == ps,
            world.walls@ == ws,
            world.player == old(world).player,
            projectiles_wf(ps),
            forall|k: int| 0 <= k < ps.len() ==> pos_within((#[trigger] ps[k]).pos, 8 * POS_LIMIT as int),
            zombies_wf(world.zombies@),
            forall|k: int|
                0 <= k < world.zombies@.len() ==> pos_within(
                    (#[trigger] world.zombies@[k]).pos,
                    8 * POS_LIMIT as int,
                ),
            m0 <= wallet.money,
            m0 + full.2 <= u32::MAX,
            full == resolve_all(ps, zs0, ws),
            full.0 == kept@ + resolve_all(ps.skip(i as int), world.zombies@, ws).0,
            full.1 == resolve_all(ps.skip(i as int), world.zombies@, ws).1,
            full.2 == (wallet.money - m0) + resolve_all(ps.skip(i as int), world.zombies@, ws).2,
        decreases n - i,
    {
        let p = world.projectiles[i];
        let ghost cur = world.zombies@;
        let ghost one = resolve_one(p, cur, ws);
        proof {
            assert(ps.skip(i as int).len() == n - i);
            assert(ps.skip(i as int)[0] == ps[i as int]);
            assert(ps.skip(i as int).drop_first() =~= ps.skip(i as int + 1));
            lemma_resolve_one_props(p, cur, ws, 8 * POS_LIMIT as int);
            lemma_resolve_all_props(ps.skip(i as int), cur, ws, 8 * POS_LIMIT as int);
        }
        if point_hits_any_wall(&world.walls, p.pos) {
            proof {
                assert(one == (false, cur, 0int));
            }
        } else {
            let hit = find_first_zombie_hit(&world.zombies, p.pos);
            match hit {
                None => {
                    kept.push(p);
                    proof {
                        assert(one == (true, cur, 0int));
                        assert(kept@ + resolve_all(ps.skip(i as int + 1), cur, ws).0
                            =~= (kept@.drop_last() + (seq![p] + resolve_all(
                            ps.skip(i as int + 1),
                            cur,
                            ws,
                        ).0)));
                    }
                },
                Some(j) => {
                    let z = world.zombies[j];
                    proof {
                        assert(zombie_wf(cur[j as int]));
                    }
                    let newcur = z.health.current - p.damage;
                    if newcur <= 0 {
                        world.zombies.remove(j);
                        proof {
                            lemma_resolve_all_props(
                                ps.skip(i as int + 1),
                                cur.remove(j as int),
                                ws,
                                8 * POS_LIMIT as int,
                            );
                        }
                        wallet.money = wallet.money + z.money_reward;
                    } else {
                        let hurt = Zombie {
                            health: Health { current: newcur, ..z.health },
                            ..z
                        };
                        world.zombies[j] = hurt;
                        proof {
                            assert(world.zombies@ == cur.update(
                                j as int,
                                damaged_zombie(z, p.damage),
                            ));
                        }
                    }
                },
            }
        }
        proof {
            assert(resolve_all(ps.skip(i as int), cur, ws).0 == (if one.0 {
                seq![p] + resolve_all(ps.skip(i as int + 1), one.1, ws).0
            } else {
                resolve_all(ps.skip(i as int + 1), one.1, ws).0
            }));
            assert(world.zombies@ == one.1);
        }
        i = i + 1;
    }
    proof {
        assert(ps.skip(n as int) =~= Seq::<Projectile>::empty());
        assert(kept@ + Seq::<Projectile>::empty() =~= kept@);
        lemma_resolve_all_props(ps, zs0, ws, 8 * POS_LIMIT as int);
    }
    world.projectiles = kept;
}

/// Number of zombies at or after index `i` within contact range of `ppos`.
pub open spec fn contact_count_from(zs: Seq<Zombie>, ppos: Vec2i, i: int) -> int
    decreases zs.len() - i,
{
    if i < 0 || i >= zs.len() {
        0
    } else {
        (if within_radius(zs[i].pos, ppos, CONTACT_RADIUS as int) {
            1int
        } else {
            0int
        }) + contact_count_from(zs, ppos, i + 1)
    }
}

/// Number of zombies within contact range of `ppos`. Contact damage is
/// additive: each such zombie contributes the full rate, so the player
/// takes `contact_count * CONTACT_DAMAGE_PER_MS * dt` per tick.
pub open spec fn contact_count(zs: Seq<Zombie>, ppos: Vec2i) -> int {
    contact_count_from(zs, ppos, 0)
}

pub proof fn lemma_contact_count_bounds(zs: Seq<Zombie>, ppos: Vec2i, i: int)
    requires
        0 <= i <= zs.len(),
    ensures
        0 <= contact_count_from(zs, ppos, i) <= zs.len() - i,
    decreases zs.len() - i,
{
    if i < zs.len() {
        lemma_contact_count_bounds(zs, ppos, i + 1);
    }
}

/// Apply contact damage from every zombie within range of the player; if
/// the player's health is driven to zero or below, the player is despawned
/// and a transition to the lost state is requested by returning true.
pub fn zombie_damage_player(world: &mut World, dt: u64) -> (lost: bool)
    requires
        old(world).zombies@.len() <= 1_000_000,
        old(world).player matches Some(p) ==> {
            &&& -1_000_000_000 <= p.health.current <= 1_000_000_000
            &&& pos_within(p.pos, 8 * POS_LIMIT as int)
        },
        forall|k: int|
            0 <= k < old(world).zombies@.len() ==> pos_within(
                (#[trigger] old(world).zombies@[k]).pos,
                8 * POS_LIMIT as int,
            ),
        dt <= DT_LIMIT,
    ensures
        final(world).zombies@ == old(world).zombies@,
        final(world).projectiles@ == old(world).projectiles@,
        final(world).walls@ == old(world).walls@,
        old(world).player is None ==> final(world).player is None && !lost,
        old(world).player matches Some(p) ==> 0 <= contact_count(old(world).zombies@, p.pos)
            * CONTACT_DAMAGE_PER_MS * dt,
        old(world).player matches Some(p) ==> {
            let dmg = contact_count(old(world).zombies@, p.pos) * CONTACT_DAMAGE_PER_MS * dt;
            if p.health.current - dmg <= 0 {
                final(world).player is None && lost
            } else {
                &&& final(world).player == Some(
                    Player {
                        health: Health { current: (p.health.current - dmg) as i64, ..p.health },
                        ..p
                    },
                )
                &&& !lost
            }
        },
{
    let player = match &world.player {
        None => { return false; },
        Some(p) => *p,
    };
    let n = world.zombies.len();
    let mut cnt: u64 = 0;
    let mut i: usize = 0;
    proof {
        lemma_contact_count_bounds(world.zombies@, player.pos, 0);
    }
    while i < n
        invariant
            0 <= i <= n == world.zombies@.len(),
            n <= 1_000_000,
            world.zombies@ == old(world).zombies@,
            world.walls@ == old(world).walls@,
            world.projectiles@ == old(world).projectiles@,
            world.player == old(world).player,
            old(world).player matches Some(q) && q == player,
            pos_within(player.pos, 8 * POS_LIMIT as int),
            forall|k: int|
                0 <= k < world.zombies@.len() ==> pos_within(
                    (#[trigger] world.zombies@[k]).pos,
                    8 * POS_LIMIT as int,
                ),
            cnt <= i,
            contact_count(world.zombies@, player.pos) == cnt + contact_count_from(
                world.zombies@,
                player.pos,
                i as int,
            ),
        decreases n - i,
    {
        let z = world.zombies[i];
        if points_within_radius(z.pos, player.pos, CONTACT_RADIUS) {
            cnt = cnt + 1;
        }
        i = i + 1;
    }
    proof {
        assert(contact_count(world.zombies@, player.pos) == cnt);
        assert(cnt as int * (CONTACT_DAMAGE_PER_MS * dt) == cnt as int * CONTACT_DAMAGE_PER_MS
            * dt) by (nonlinear_arith);
        assert(cnt as int * (CONTACT_DAMAGE_PER_MS * dt as int) <= 1_000_000 * (10
            * 1_000_000int)) by (nonlinear_arith)
            requires 0 <= cnt as int <= 1_000_000, 0 <= CONTACT_DAMAGE_PER_MS * dt as int <= 10 * 1_000_000int;
        assert(0 <= cnt as int * (CONTACT_DAMAGE_PER_MS * dt as int)) by (nonlinear_arith)
            requires 0 <= cnt as int, 0 <= CONTACT_DAMAGE_PER_MS * dt as int;
    }
    let dmg: u64 = cnt * (10 * dt);
    let newcur: i64 = player.health.current - dmg as i64;
    if newcur <= 0 {
        world.player = None;
        true
    } else {
        world.player = Some(
            Player { health: Health { current: newcur, ..player.health }, ..player },
        );
        false
    }
}

/// How far a one-shot lifetime timer still has to run.
pub open spec fn remaining_ms(t: Timer) -> int {
    t.duration_ms - t.elapsed_ms
}

/// A projectile's lifetime decreases strictly with every tick and the
/// projectile expires exactly when the lifetime reaches zero, never before:
/// after a tick of `dt` the remaining lifetime is the old remaining
/// lifetime less `dt` (at least zero), and the timer reports finished if
/// and only if the old remaining lifetime was at most `dt`.
pub proof fn lemma_projectile_expiry(t: Timer, dt: u64)
    requires
        timer_wf(t),
        !t.repeating,
        !t.finished,
        t.elapsed_ms <= t.duration_ms,
    ensures
        remaining_ms(timer_after_tick(t, dt)) == (if remaining_ms(t) >= dt {
            remaining_ms(t) - dt
        } else {
            0
        }),
        timer_after_tick(t, dt).finished <==> remaining_ms(t) <= dt,
{
}

} // verus!
