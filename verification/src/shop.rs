//! The economy: the run-scoped wallet, the in-run fire-rate upgrade, and
//! the persistent dashboard purchases.
//!
//! Every purchase is an atomic affordability-checked mutation; an attempt
//! without sufficient funds, or for an unlock already owned, changes
//! nothing.

use vstd::prelude::*;
use crate::components::WeaponStats;
use crate::progression::GlobalPlayerStats;
use crate::world::World;

verus! {

/// Money collected during the current run only.
#[derive(Clone, Copy, PartialEq, Eq, Structural, Debug)]
pub struct Wallet {
    pub money: u32,
}

impl Default for Wallet {
    fn default() -> (w: Wallet)
        ensures
            w.money == 0,
    {
        Wallet { money: 0 }
    }
}

/// Rising price of the in-run fire-rate upgrade.
#[derive(Clone, Copy, PartialEq, Eq, Structural, Debug)]
pub struct WeaponUpgradeCost {
    pub fire_rate_cost: u32,
}

impl Default for WeaponUpgradeCost {
    fn default() -> (c: WeaponUpgradeCost)
        ensures
            c.fire_rate_cost == 10,
    {
        WeaponUpgradeCost { fire_rate_cost: 10 }
    }
}

/// How much the fire-rate price rises after each purchase.
pub const FIRE_RATE_COST_STEP: u32 = 50;

/// Cost of one persistent weapon or ammunition upgrade level.
pub const LEVEL_UPGRADE_COST: u32 = 100;

/// One-time cost of the shotgun unlock.
pub const SHOTGUN_UNLOCK_COST: u32 = 500;

/// One-time cost of the rifle unlock.
pub const RIFLE_UNLOCK_COST: u32 = 1000;

/// A cooldown shortened to four fifths, but never below one millisecond.
pub open spec fn decayed_rate(rate_ms: int) -> int {
    if (rate_ms * 8) / 10 >= 1 {
        (rate_ms * 8) / 10
    } else {
        1
    }
}

/// The shortened cooldown never grows.
pub proof fn lemma_decayed_rate_le(r: int)
    requires
        1 <= r,
    ensures
        1 <= decayed_rate(r) <= r,
{
    assert(r * 8 <= r * 10) by (nonlinear_arith)
        requires 0 <= r;
    vstd::arithmetic::div_mod::lemma_div_is_ordered(r * 8, r * 10, 10);
    vstd::arithmetic::div_mod::lemma_div_multiples_vanish(r, 10);
    assert(r * 10 == 10 * r) by (nonlinear_arith);
}

/// The weapon after a successful fire-rate purchase: the cooldown shortens
/// and the running timer's period is updated at once.
pub open spec fn upgraded_weapon(w: WeaponStats) -> WeaponStats {
    WeaponStats {
        fire_rate_ms: decayed_rate(w.fire_rate_ms as int) as u64,
        timer: crate::timer::Timer {
            duration_ms: decayed_rate(w.fire_rate_ms as int) as u64,
            ..w.timer
        },
        ..w
    }
}

/// Handle the in-run fire-rate purchase. With the purchase requested, the
/// price affordable and a player present, the wallet pays the price, the
/// weapon cooldown shrinks to four fifths (the running timer immediately
/// uses the new period) and the price rises; otherwise nothing changes.
pub fn shop_input(
    world: &mut World,
    wallet: &mut Wallet,
    cost: &mut WeaponUpgradeCost,
    buy_pressed: bool,
)
    requires
        old(cost).fire_rate_cost + FIRE_RATE_COST_STEP <= u32::MAX,
        old(world).player matches Some(p) ==> p.weapon.fire_rate_ms <= 1_000_000_000,
    ensures
        final(world).zombies@ == old(world).zombies@,
        final(world).projectiles@ == old(world).projectiles@,
        final(world).walls@ == old(world).walls@,
        ({
            let bought = buy_pressed && old(wallet).money >= old(cost).fire_rate_cost
                && old(world).player is Some;
            if bought {
                &&& final(world).player == Some(
                    crate::components::Player {
                        weapon: upgraded_weapon(old(world).player->Some_0.weapon),
                        ..old(world).player->Some_0
                    },
                )
                &&& final(wallet).money == old(wallet).money - old(cost).fire_rate_cost
                &&& final(cost).fire_rate_cost == old(cost).fire_rate_cost + FIRE_RATE_COST_STEP
            } else {
                &&& final(world).player == old(world).player
                &&& *final(wallet) == *old(wallet)
                &&& *final(cost) == *old(cost)
            }
        }),
{
    if !buy_pressed {
        return;
    }
    if wallet.money >= cost.fire_rate_cost {
        let player = match &world.player {
            None => { return; },
            Some(p) => *p,
        };
        wallet.money = wallet.money - cost.fire_rate_cost;
        let shortened = player.weapon.fire_rate_ms * 8 / 10;
        let new_rate = if shortened >= 1 { shortened } else { 1 };
        let mut weapon = player.weapon;
        weapon.fire_rate_ms = new_rate;
        weapon.timer.set_duration(new_rate);
        cost.fire_rate_cost = cost.fire_rate_cost + FIRE_RATE_COST_STEP;
        world.player = Some(crate::components::Player { weapon, ..player });
    }
}

/// The stats after buying one persistent weapon-upgrade level, when
/// affordable.
pub open spec fn upgrade_weapon_spec(s: GlobalPlayerStats) -> GlobalPlayerStats {
    if s.total_money >= LEVEL_UPGRADE_COST && s.weapon_upgrade_level + 1 <= u32::MAX {
        GlobalPlayerStats {
            total_money: (s.total_money - LEVEL_UPGRADE_COST) as u32,
            weapon_upgrade_level: (s.weapon_upgrade_level + 1) as u32,
            ..s
        }
    } else {
        s
    }
}

/// The stats after buying one persistent ammunition level, when affordable.
pub open spec fn upgrade_ammo_spec(s: GlobalPlayerStats) -> GlobalPlayerStats {
    if s.total_money >= LEVEL_UPGRADE_COST && s.max_ammo_level + 1 <= u32::MAX {
        GlobalPlayerStats {
            total_money: (s.total_money - LEVEL_UPGRADE_COST) as u32,
            max_ammo_level: (s.max_ammo_level + 1) as u32,
            ..s
        }
    } else {
        s
    }
}

/// The stats after attempting the shotgun unlock: paid at most once.
pub open spec fn unlock_shotgun_spec(s: GlobalPlayerStats) -> GlobalPlayerStats {
    if s.total_money >= SHOTGUN_UNLOCK_COST && !s.unlocked_shotgun {
        GlobalPlayerStats {
            total_money: (s.total_money - SHOTGUN_UNLOCK_COST) as u32,
            unlocked_shotgun: true,
            ..s
        }
    } else {
        s
    }
}

/// The stats after attempting the rifle unlock: paid at most once.
pub open spec fn unlock_rifle_spec(s: GlobalPlayerStats) -> GlobalPlayerStats {
    if s.total_money >= RIFLE_UNLOCK_COST && !s.unlocked_rifle {
        GlobalPlayerStats {
            total_money: (s.total_money - RIFLE_UNLOCK_COST) as u32,
            unlocked_rifle: true,
            ..s
        }
    } else {
        s
    }
}

/// Buy one persistent weapon-upgrade level from the banked money.
pub fn upgrade_weapon(stats: &mut GlobalPlayerStats)
    requires
        old(stats).weapon_upgrade_level + 1 <= u32::MAX,
    ensures
        *final(stats) == upgrade_weapon_spec(*old(stats)),
{
    if stats.total_money >= LEVEL_UPGRADE_COST {
        stats.total_money = stats.total_money - LEVEL_UPGRADE_COST;
        stats.weapon_upgrade_level = stats.weapon_upgrade_level + 1;
    }
}

/// Buy one persistent ammunition level from the banked money.
pub fn upgrade_ammo(stats: &mut GlobalPlayerStats)
    requires
        old(stats).max_ammo_level + 1 <= u32::MAX,
    ensures
        *final(stats) == upgrade_ammo_spec(*old(stats)),
{
    if stats.total_money >= LEVEL_UPGRADE_COST {
        stats.total_money = stats.total_money - LEVEL_UPGRADE_COST;
        stats.max_ammo_level = stats.max_ammo_level + 1;
    }
}

/// Attempt the one-time shotgun unlock.
pub fn unlock_shotgun(stats: &mut GlobalPlayerStats)
    ensures
        *final(stats) == unlock_shotgun_spec(*old(stats)),
{
    if stats.total_money >= SHOTGUN_UNLOCK_COST && !stats.unlocked_shotgun {
        stats.total_money = stats.total_money - SHOTGUN_UNLOCK_COST;
        stats.unlocked_shotgun = true;
    }
}

/// Attempt the one-time rifle unlock.
pub fn unlock_rifle(stats: &mut GlobalPlayerStats)
    ensures
        *final(stats) == unlock_rifle_spec(*old(stats)),
{
    if stats.total_money >= RIFLE_UNLOCK_COST && !stats.unlocked_rifle {
        stats.total_money = stats.total_money - RIFLE_UNLOCK_COST;
        stats.unlocked_rifle = true;
    }
}

/// An unaffordable unlock attempt changes nothing, no matter how often it
/// is repeated: with less banked money than the rifle costs, any number of
/// attempts leaves the money and the unlock flag exactly as they were.
pub proof fn lemma_unlock_rifle_refused_is_identity(s: GlobalPlayerStats)
    requires
        s.total_money < RIFLE_UNLOCK_COST,
    ensures
        unlock_rifle_spec(s) == s,
        unlock_rifle_spec(unlock_rifle_spec(s)) == s,
{
}

/// Two successful fire-rate purchases compound: the cooldown becomes four
/// fifths of four fifths of the original, and the running timer's period
/// equals the latest cooldown after each purchase.
pub proof fn lemma_fire_rate_compounding(w: WeaponStats)
    requires
        1 <= w.fire_rate_ms <= 1_000_000_000,
    ensures
        upgraded_weapon(upgraded_weapon(w)).fire_rate_ms == decayed_rate(
            decayed_rate(w.fire_rate_ms as int),
        ),
        upgraded_weapon(upgraded_weapon(w)).timer.duration_ms == upgraded_weapon(
            upgraded_weapon(w),
        ).fire_rate_ms,
{
}

} // verus!
