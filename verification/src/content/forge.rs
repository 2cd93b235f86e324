//! Global forge configuration: the tunable numbers behind upgrading, reforging,
//! socketing, and enchanting. Per-item upgrade scaling lives on the item
//! ([`crate::content::item::UpgradeProfile`]); this is the *house rules* every forge obeys, so
//! it hot-reloads with the rest of the pack and the economy can be retuned live.

use crate::content::ids::ItemId;
use crate::scalar::{dec, decimal, Scalar};
use vstd::prelude::*;

verus! {

/// House rules for the forge. All of these are read by the forge.
#[derive(Debug)]
pub struct ForgeConfig {
    /// Essence cost multiplier applied per current upgrade level (cost climbs as you
    /// push a `+N` higher).
    pub upgrade_cost_growth: Scalar,
    /// Above an item's `safe_until`, a failed upgrade has this chance to *also* shave a
    /// level (otherwise a failure just burns the essence). 0 = forgiving, 1 = brutal.
    pub downgrade_on_fail: Scalar,
    /// Reagent + count to **reforge** (reroll all random affixes) one item.
    pub reforge_cost: (ItemId, u16),
    /// Reagent + count to **imprint** (lock one affix so the next reforge keeps it).
    pub imprint_cost: (ItemId, u16),
    /// Reagent + count to **add a socket** (up to the rarity budget).
    pub socket_cost: (ItemId, u16),
    /// Reagent + count to **unsocket** a gem without destroying it (cheaper than re-fusing).
    pub unsocket_cost: (ItemId, u16),
    /// Quality cap (0..100). Quality adds a flat % to the item's base mods and is raised
    /// by polishing reagents; it never resets on reforge.
    pub quality_cap: u8,
    /// Per-point quality contribution to the base stat multiplier (0.004 = +0.4%/point,
    /// so a perfect 100-quality item carries +40% on its base before affixes).
    pub quality_stat_per_point: Scalar,
    /// How strongly magic-find shifts a drop up the rarity ladder. Effective extra
    /// "promotion rolls" = `magic_find * mf_to_promote`.
    pub mf_to_promote: Scalar,
    /// How strongly magic-find biases the affix *tier* draw upward.
    pub mf_to_tier: Scalar,
}

impl Clone for ForgeConfig {
    fn clone(&self) -> (r: Self)
        ensures
            r == *self,
    {
        ForgeConfig {
            upgrade_cost_growth: self.upgrade_cost_growth,
            downgrade_on_fail: self.downgrade_on_fail,
            reforge_cost: (self.reforge_cost.0.clone(), self.reforge_cost.1),
            imprint_cost: (self.imprint_cost.0.clone(), self.imprint_cost.1),
            socket_cost: (self.socket_cost.0.clone(), self.socket_cost.1),
            unsocket_cost: (self.unsocket_cost.0.clone(), self.unsocket_cost.1),
            quality_cap: self.quality_cap,
            quality_stat_per_point: self.quality_stat_per_point,
            mf_to_promote: self.mf_to_promote,
            mf_to_tier: self.mf_to_tier,
        }
    }
}

impl Default for ForgeConfig {
    fn default() -> (r: Self)
        ensures
            r.upgrade_cost_growth == decimal(5, 1),
            r.downgrade_on_fail == decimal(25, 2),
            r.reforge_cost.0@ == "item.essence.chaos"@,
            r.reforge_cost.1 == 1,
            r.imprint_cost.0@ == "item.essence.binding"@,
            r.imprint_cost.1 == 1,
            r.socket_cost.0@ == "item.essence.boring"@,
            r.socket_cost.1 == 1,
            r.unsocket_cost.0@ == "item.essence.solvent"@,
            r.unsocket_cost.1 == 1,
            r.quality_cap == 100,
            r.quality_stat_per_point == decimal(4, 3),
            r.mf_to_promote == decimal(9, 1),
            r.mf_to_tier == decimal(14, 1),
    {
        ForgeConfig {
            upgrade_cost_growth: dec(5, 1),
            downgrade_on_fail: dec(25, 2),
            reforge_cost: (ItemId::new("item.essence.chaos"), 1),
            imprint_cost: (ItemId::new("item.essence.binding"), 1),
            socket_cost: (ItemId::new("item.essence.boring"), 1),
            unsocket_cost: (ItemId::new("item.essence.solvent"), 1),
            quality_cap: 100,
            quality_stat_per_point: dec(4, 3),
            mf_to_promote: dec(9, 1),
            mf_to_tier: dec(14, 1),
        }
    }
}

} // verus!
