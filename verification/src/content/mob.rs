//! Mobs: non-player creatures and summons.
//!
//! A [`MobDef`] is pure data: health, speed, the abilities it casts, what it drops,
//! and the seed that grows its procedural body. The sim's AI/combat systems and the
//! summon op (`EffectOp::Summon`) both resolve mobs by [`MobId`]. World-gen biomes
//! reference mobs by id for spawning.

use crate::content::ids::{AbilityId, ItemId, MaterialId, MobId};
use crate::scalar::Scalar;
use vstd::prelude::*;

verus! {

/// A creature / summon archetype.
#[derive(Debug, Clone)]
pub struct MobDef {
    pub id: MobId,
    pub name: String,
    /// Starting / maximum health.
    pub max_health: Scalar,
    /// Movement speed in m/s.
    pub move_speed: Scalar,
    /// Abilities the mob's AI may cast (resolved against the active pack).
    pub abilities: Vec<AbilityId>,
    /// Experience awarded to the killer.
    pub xp_reward: u32,
    /// Drops as `(item, drop chance 0..1)`.
    pub loot_table: Vec<(ItemId, Scalar)>,
    /// Material skinning the creature's mesh.
    pub material: Option<MaterialId>,
    /// Visual scale multiplier.
    pub scale: Scalar,
    /// Whether it attacks players on sight (vs. neutral until provoked).
    pub aggressive: bool,
    /// Seed driving the procedural organic mesh grown in the generator — two mobs
    /// sharing a def but different seeds would look like siblings, not clones.
    pub mesh_seed: u32,
}

} // verus!
