//! Persistent cross-run progression: banked money, upgrade levels and
//! one-time weapon unlocks. Lives for the whole process; mutated only by
//! shop actions and by run-end reconciliation.

use vstd::prelude::*;

verus! {

#[derive(Clone, Copy, PartialEq, Eq, Structural, Debug)]
pub struct GlobalPlayerStats {
    pub total_money: u32,
    pub level: u32,
    pub weapon_upgrade_level: u32,
    pub max_ammo_level: u32,
    pub unlocked_shotgun: bool,
    pub unlocked_rifle: bool,
}

impl Default for GlobalPlayerStats {
    fn default() -> (s: GlobalPlayerStats)
        ensures
            s == (GlobalPlayerStats {
                total_money: 0,
                level: 0,
                weapon_upgrade_level: 0,
                max_ammo_level: 0,
                unlocked_shotgun: false,
                unlocked_rifle: false,
            }),
    {
        GlobalPlayerStats {
            total_money: 0,
            level: 0,
            weapon_upgrade_level: 0,
            max_ammo_level: 0,
            unlocked_shotgun: false,
            unlocked_rifle: false,
        }
    }
}

} // verus!
