//! The live registry of dynamic entities and static obstacles.

use vstd::prelude::*;
use crate::components::{
    Player, Projectile, Wall, Zombie, player_wf, pos_within, projectile_wf, wall_wf, zombie_wf,
};

verus! {

/// All entities of the running level. Systems mutate it through the
/// tick-phase functions; the presentation layer only reads it.
pub struct World {
    pub player: Option<Player>,
    pub zombies: Vec<Zombie>,
    pub projectiles: Vec<Projectile>,
    pub walls: Vec<Wall>,
}

pub open spec fn zombies_wf(zs: Seq<Zombie>) -> bool {
    forall|i: int| 0 <= i < zs.len() ==> zombie_wf(#[trigger] zs[i])
}

pub open spec fn projectiles_wf(ps: Seq<Projectile>) -> bool {
    forall|i: int| 0 <= i < ps.len() ==> projectile_wf(#[trigger] ps[i])
}

pub open spec fn walls_wf(ws: Seq<Wall>) -> bool {
    forall|i: int| 0 <= i < ws.len() ==> wall_wf(#[trigger] ws[i])
}

/// Every entity of the world is well formed. In particular every live
/// zombie, and the player while present, has positive health.
pub open spec fn world_wf(w: World) -> bool {
    &&& (w.player matches Some(p) ==> player_wf(p))
    &&& zombies_wf(w.zombies@)
    &&& projectiles_wf(w.projectiles@)
    &&& walls_wf(w.walls@)
}

/// Every dynamic entity sits within `b` of the origin on both axes.
pub open spec fn world_pos_bounded(w: World, b: int) -> bool {
    &&& (w.player matches Some(p) ==> pos_within(p.pos, b))
    &&& forall|i: int| 0 <= i < w.zombies@.len() ==> pos_within((#[trigger] w.zombies@[i]).pos, b)
    &&& forall|i: int|
        0 <= i < w.projectiles@.len() ==> pos_within((#[trigger] w.projectiles@[i]).pos, b)
}

impl World {
    /// An empty level: no entities, no obstacles.
    pub fn new() -> (w: World)
        ensures
            w.player is None,
            w.zombies@ =~= Seq::<Zombie>::empty(),
            w.projectiles@ =~= Seq::<Projectile>::empty(),
            w.walls@ =~= Seq::<Wall>::empty(),
            world_wf(w),
    {
        World { player: None, zombies: Vec::new(), projectiles: Vec::new(), walls: Vec::new() }
    }

    /// Number of live zombies.
    pub fn zombie_count(&self) -> (n: usize)
        ensures
            n == self.zombies@.len(),
    {
        self.zombies.len()
    }
}

} // verus!
