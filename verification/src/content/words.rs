//! Definitions as words, for telling one edit of a pack from another.
//!
//! A definition is told as a list of words, one for each thing that a designer can edit of it,
//! and hashed. A part with parts of its own (an effect, a proc, a list) is told by one word: the
//! hash of its own list. So an edit in one place, however deep, changes one word at each level
//! above it.

use crate::content::ability::{AbilityDef, CastInput};
use crate::content::ids::{
    AbilityId, ElementId, ItemId, MaterialId, MobId, MovementModeId, SetId, ShaderId, SpellId,
    StatusId, TechNodeId,
};
use crate::content::item::{
    CraftRecipe, ElementMods, EquipSlot, ItemDef, ItemTrigger, ProcEffect, ProcWhen, Rarity,
    StatMods, UpgradeProfile,
};
use crate::content::material::{ShaderDef, ShaderStage};
use crate::content::spell::{EffectOp, Faction, Scaling, SpellDef};
use crate::content::status::{StatusEffectDef, StatusKind};
use crate::scalar::Scalar;
use crate::text::{changed_word_shows, fnv1a, fnv1a_words, fnv_hash, fnv_words};
use vstd::prelude::*;

verus! {

/// Something that a word tells.
pub trait Worded: Sized {
    spec fn word(&self) -> u64;

    fn to_word(&self) -> (r: u64)
        ensures
            r == self.word(),
    ;
}

impl Worded for Scalar {
    open spec fn word(&self) -> u64 {
        self.bits as u64
    }

    fn to_word(&self) -> (r: u64) {
        self.bits as u64
    }
}

impl Worded for u8 {
    open spec fn word(&self) -> u64 {
        *self as u64
    }

    fn to_word(&self) -> (r: u64) {
        *self as u64
    }
}

impl Worded for u16 {
    open spec fn word(&self) -> u64 {
        *self as u64
    }

    fn to_word(&self) -> (r: u64) {
        *self as u64
    }
}

impl Worded for u32 {
    open spec fn word(&self) -> u64 {
        *self as u64
    }

    fn to_word(&self) -> (r: u64) {
        *self as u64
    }
}

impl Worded for bool {
    open spec fn word(&self) -> u64 {
        if *self {
            1
        } else {
            0
        }
    }

    fn to_word(&self) -> (r: u64) {
        if *self {
            1
        } else {
            0
        }
    }
}

impl Worded for String {
    open spec fn word(&self) -> u64 {
        fnv_hash(self@)
    }

    fn to_word(&self) -> (r: u64) {
        fnv1a(self.as_str())
    }
}

impl Worded for AbilityId {
    open spec fn word(&self) -> u64 {
        fnv_hash(self@)
    }

    fn to_word(&self) -> (r: u64) {
        fnv1a(self.as_str())
    }
}

impl Worded for ElementId {
    open spec fn word(&self) -> u64 {
        fnv_hash(self@)
    }

    fn to_word(&self) -> (r: u64) {
        fnv1a(self.as_str())
    }
}

impl Worded for ItemId {
    open spec fn word(&self) -> u64 {
        fnv_hash(self@)
    }

    fn to_word(&self) -> (r: u64) {
        fnv1a(self.as_str())
    }
}

impl Worded for MaterialId {
    open spec fn word(&self) -> u64 {
        fnv_hash(self@)
    }

    fn to_word(&self) -> (r: u64) {
        fnv1a(self.as_str())
    }
}

impl Worded for MobId {
    open spec fn word(&self) -> u64 {
        fnv_hash(self@)
    }

    fn to_word(&self) -> (r: u64) {
        fnv1a(self.as_str())
    }
}

impl Worded for MovementModeId {
    open spec fn word(&self) -> u64 {
        fnv_hash(self@)
    }

    fn to_word(&self) -> (r: u64) {
        fnv1a(self.as_str())
    }
}

impl Worded for SetId {
    open spec fn word(&self) -> u64 {
        fnv_hash(self@)
    }

    fn to_word(&self) -> (r: u64) {
        fnv1a(self.as_str())
    }
}

impl Worded for ShaderId {
    open spec fn word(&self) -> u64 {
        fnv_hash(self@)
    }

    fn to_word(&self) -> (r: u64) {
        fnv1a(self.as_str())
    }
}

impl Worded for SpellId {
    open spec fn word(&self) -> u64 {
        fnv_hash(self@)
    }

    fn to_word(&self) -> (r: u64) {
        fnv1a(self.as_str())
    }
}

impl Worded for StatusId {
    open spec fn word(&self) -> u64 {
        fnv_hash(self@)
    }

    fn to_word(&self) -> (r: u64) {
        fnv1a(self.as_str())
    }
}

impl Worded for TechNodeId {
    open spec fn word(&self) -> u64 {
        fnv_hash(self@)
    }

    fn to_word(&self) -> (r: u64) {
        fnv1a(self.as_str())
    }
}

impl<T: Worded> Worded for Option<T> {
    open spec fn word(&self) -> u64 {
        match self {
            Some(x) => fnv_words(seq![1, x.word()]),
            None => fnv_words(seq![0, 0]),
        }
    }

    fn to_word(&self) -> (r: u64) {
        match self {
            Some(x) => hashed(&[1, x.to_word()]),
            None => hashed(&[0, 0]),
        }
    }
}

impl<A: Worded, B: Worded> Worded for (A, B) {
    open spec fn word(&self) -> u64 {
        fnv_words(seq![self.0.word(), self.1.word()])
    }

    fn to_word(&self) -> (r: u64) {
        hashed(&[self.0.to_word(), self.1.to_word()])
    }
}

/// The words of a list, one for each of its members.
pub open spec fn member_words<T: Worded>(list: Seq<T>) -> Seq<u64> {
    Seq::new(list.len(), |i: int| list[i].word())
}

impl<T: Worded> Worded for Vec<T> {
    open spec fn word(&self) -> u64 {
        fnv_words(member_words(self@))
    }

    fn to_word(&self) -> (r: u64) {
        let mut words: Vec<u64> = Vec::new();
        let mut i: usize = 0;
        while i < self.len()
            invariant
                i <= self.len(),
                words@ == member_words(self@).take(i as int),
            decreases self.len() - i,
        {
            words.push(self[i].to_word());
            assert(words@ =~= member_words(self@).take(i + 1));
            i = i + 1;
        }
        assert(words@ =~= member_words(self@));
        fnv1a_words(words.as_slice())
    }
}

/// The hash of the words of an array.
fn hashed<const N: usize>(words: &[u64; N]) -> (r: u64)
    ensures
        r == fnv_words(words@),
{
    fnv1a_words(words.as_slice())
}

impl Worded for Faction {
    open spec fn word(&self) -> u64 {
        match self {
            Faction::Enemies => 1,
            Faction::Allies => 2,
            Faction::SelfOnly => 3,
            Faction::All => 4,
        }
    }

    fn to_word(&self) -> (r: u64) {
        match self {
            Faction::Enemies => 1,
            Faction::Allies => 2,
            Faction::SelfOnly => 3,
            Faction::All => 4,
        }
    }
}

impl Worded for Rarity {
    open spec fn word(&self) -> u64 {
        match self {
            Rarity::Common => 1,
            Rarity::Uncommon => 2,
            Rarity::Rare => 3,
            Rarity::Epic => 4,
            Rarity::Legendary => 5,
            Rarity::Mythic => 6,
        }
    }

    fn to_word(&self) -> (r: u64) {
        match self {
            Rarity::Common => 1,
            Rarity::Uncommon => 2,
            Rarity::Rare => 3,
            Rarity::Epic => 4,
            Rarity::Legendary => 5,
            Rarity::Mythic => 6,
        }
    }
}

impl Worded for EquipSlot {
    open spec fn word(&self) -> u64 {
        match self {
            EquipSlot::Staff => 1,
            EquipSlot::Weapon => 2,
            EquipSlot::Offhand => 3,
            EquipSlot::Robe => 4,
            EquipSlot::Helm => 5,
            EquipSlot::Gloves => 6,
            EquipSlot::Boots => 7,
            EquipSlot::Belt => 8,
            EquipSlot::Ring => 9,
            EquipSlot::Amulet => 10,
            EquipSlot::Relic => 11,
            EquipSlot::Consumable => 12,
            EquipSlot::Trinket => 13,
            EquipSlot::Unworn => 14,
        }
    }

    fn to_word(&self) -> (r: u64) {
        match self {
            EquipSlot::Staff => 1,
            EquipSlot::Weapon => 2,
            EquipSlot::Offhand => 3,
            EquipSlot::Robe => 4,
            EquipSlot::Helm => 5,
            EquipSlot::Gloves => 6,
            EquipSlot::Boots => 7,
            EquipSlot::Belt => 8,
            EquipSlot::Ring => 9,
            EquipSlot::Amulet => 10,
            EquipSlot::Relic => 11,
            EquipSlot::Consumable => 12,
            EquipSlot::Trinket => 13,
            EquipSlot::Unworn => 14,
        }
    }
}

impl Worded for ShaderStage {
    open spec fn word(&self) -> u64 {
        match self {
            ShaderStage::Surface => 1,
            ShaderStage::Fullscreen => 2,
            ShaderStage::Sky => 3,
            ShaderStage::Particle => 4,
            ShaderStage::Water => 5,
        }
    }

    fn to_word(&self) -> (r: u64) {
        match self {
            ShaderStage::Surface => 1,
            ShaderStage::Fullscreen => 2,
            ShaderStage::Sky => 3,
            ShaderStage::Particle => 4,
            ShaderStage::Water => 5,
        }
    }
}

/// An input as words: which it is, and the slot.
pub open spec fn input_words(d: CastInput) -> Seq<u64> {
    match d {
        CastInput::Primary => seq![1],
        CastInput::Secondary => seq![2],
        CastInput::Slot(n) => seq![3, n.word()],
    }
}

impl Worded for CastInput {
    open spec fn word(&self) -> u64 {
        fnv_words(input_words(*self))
    }

    fn to_word(&self) -> (r: u64) {
        match self {
            CastInput::Primary => {
                let words = [1];
                assert(words@ =~= input_words(*self));
                hashed(&words)
            },
            CastInput::Secondary => {
                let words = [2];
                assert(words@ =~= input_words(*self));
                hashed(&words)
            },
            CastInput::Slot(n) => {
                let words = [3, n.to_word()];
                assert(words@ =~= input_words(*self));
                hashed(&words)
            },
        }
    }
}

/// An ability as words.
pub open spec fn ability_words(d: AbilityDef) -> Seq<u64> {
    seq![
        d.id.word(),
        d.name.word(),
        d.spell.word(),
        d.binding.word(),
        d.cooldown_override.word(),
        d.icon_material.word(),
    ]
}

impl Worded for AbilityDef {
    open spec fn word(&self) -> u64 {
        fnv_words(ability_words(*self))
    }

    fn to_word(&self) -> (r: u64) {
        let words = [
            self.id.to_word(),
            self.name.to_word(),
            self.spell.to_word(),
            self.binding.to_word(),
            self.cooldown_override.to_word(),
            self.icon_material.to_word(),
        ];
        assert(words@ =~= ability_words(*self));
        hashed(&words)
    }
}

/// A shader as words.
pub open spec fn shader_words(d: ShaderDef) -> Seq<u64> {
    seq![
        d.id.word(),
        d.name.word(),
        d.stage.word(),
        d.source.word(),
        d.params.word(),
    ]
}

impl Worded for ShaderDef {
    open spec fn word(&self) -> u64 {
        fnv_words(shader_words(*self))
    }

    fn to_word(&self) -> (r: u64) {
        let words = [
            self.id.to_word(),
            self.name.to_word(),
            self.stage.to_word(),
            self.source.to_word(),
            self.params.to_word(),
        ];
        assert(words@ =~= shader_words(*self));
        hashed(&words)
    }
}

/// Per-element modifiers as words.
pub open spec fn element_words(d: ElementMods) -> Seq<u64> {
    seq![
        d.fire.word(),
        d.frost.word(),
        d.storm.word(),
        d.arcane.word(),
        d.nature.word(),
        d.necro.word(),
        d.chrono.word(),
        d.radiant.word(),
        d.physical.word(),
    ]
}

impl Worded for ElementMods {
    open spec fn word(&self) -> u64 {
        fnv_words(element_words(*self))
    }

    fn to_word(&self) -> (r: u64) {
        let words = [
            self.fire.to_word(),
            self.frost.to_word(),
            self.storm.to_word(),
            self.arcane.to_word(),
            self.nature.to_word(),
            self.necro.to_word(),
            self.chrono.to_word(),
            self.radiant.to_word(),
            self.physical.to_word(),
        ];
        assert(words@ =~= element_words(*self));
        hashed(&words)
    }
}

/// Stat modifiers as words.
pub open spec fn stat_words(d: StatMods) -> Seq<u64> {
    seq![
        d.power.word(),
        d.focus.word(),
        d.agility.word(),
        d.vitality.word(),
        d.max_mana.word(),
        d.max_health.word(),
        d.max_stamina.word(),
        d.mana_regen.word(),
        d.health_regen.word(),
        d.spell_power_pct.word(),
        d.cooldown_reduction.word(),
        d.cast_speed_pct.word(),
        d.range_pct.word(),
        d.aoe_radius_pct.word(),
        d.projectile_speed_pct.word(),
        d.extra_projectiles.word(),
        d.pierce.word(),
        d.area_damage.word(),
        d.crit_chance.word(),
        d.crit_damage.word(),
        d.lifesteal.word(),
        d.mana_leech.word(),
        d.health_on_kill.word(),
        d.mana_on_kill.word(),
        d.armor.word(),
        d.armor_pct.word(),
        d.block_chance.word(),
        d.thorns.word(),
        d.tenacity.word(),
        d.fall_damage_pct.word(),
        d.melee_power_pct.word(),
        d.melee_range.word(),
        d.attack_speed_pct.word(),
        d.knockback_pct.word(),
        d.move_speed.word(),
        d.jump_count.word(),
        d.dash_charges.word(),
        d.summon_power_pct.word(),
        d.summon_count.word(),
        d.magic_find.word(),
        d.gold_find.word(),
        d.xp_gain_pct.word(),
        d.elem_damage.word(),
        d.elem_resist.word(),
    ]
}

impl Worded for StatMods {
    open spec fn word(&self) -> u64 {
        fnv_words(stat_words(*self))
    }

    fn to_word(&self) -> (r: u64) {
        let words = [
            self.power.to_word(),
            self.focus.to_word(),
            self.agility.to_word(),
            self.vitality.to_word(),
            self.max_mana.to_word(),
            self.max_health.to_word(),
            self.max_stamina.to_word(),
            self.mana_regen.to_word(),
            self.health_regen.to_word(),
            self.spell_power_pct.to_word(),
            self.cooldown_reduction.to_word(),
            self.cast_speed_pct.to_word(),
            self.range_pct.to_word(),
            self.aoe_radius_pct.to_word(),
            self.projectile_speed_pct.to_word(),
            self.extra_projectiles.to_word(),
            self.pierce.to_word(),
            self.area_damage.to_word(),
            self.crit_chance.to_word(),
            self.crit_damage.to_word(),
            self.lifesteal.to_word(),
            self.mana_leech.to_word(),
            self.health_on_kill.to_word(),
            self.mana_on_kill.to_word(),
            self.armor.to_word(),
            self.armor_pct.to_word(),
            self.block_chance.to_word(),
            self.thorns.to_word(),
            self.tenacity.to_word(),
            self.fall_damage_pct.to_word(),
            self.melee_power_pct.to_word(),
            self.melee_range.to_word(),
            self.attack_speed_pct.to_word(),
            self.knockback_pct.to_word(),
            self.move_speed.to_word(),
            self.jump_count.to_word(),
            self.dash_charges.to_word(),
            self.summon_power_pct.to_word(),
            self.summon_count.to_word(),
            self.magic_find.to_word(),
            self.gold_find.to_word(),
            self.xp_gain_pct.to_word(),
            self.elem_damage.to_word(),
            self.elem_resist.to_word(),
        ];
        assert(words@ =~= stat_words(*self));
        hashed(&words)
    }
}

/// The event of a proc as words.
pub open spec fn when_words(d: ProcWhen) -> Seq<u64> {
    match d {
        ProcWhen::OnHit => seq![1],
        ProcWhen::OnCrit => seq![2],
        ProcWhen::OnMelee => seq![3],
        ProcWhen::OnKill => seq![4],
        ProcWhen::OnCast => seq![5],
        ProcWhen::OnTakeDamage => seq![6],
        ProcWhen::OnLowHealth { frac } => seq![7, frac.word()],
        ProcWhen::OnBlock => seq![8],
        ProcWhen::OnDash => seq![9],
        ProcWhen::Aura => seq![10],
        ProcWhen::Interval { secs } => seq![11, secs.word()],
    }
}

impl Worded for ProcWhen {
    open spec fn word(&self) -> u64 {
        fnv_words(when_words(*self))
    }

    fn to_word(&self) -> (r: u64) {
        match self {
            ProcWhen::OnHit => {
                let words = [1];
                assert(words@ =~= when_words(*self));
                hashed(&words)
            },
            ProcWhen::OnCrit => {
                let words = [2];
                assert(words@ =~= when_words(*self));
                hashed(&words)
            },
            ProcWhen::OnMelee => {
                let words = [3];
                assert(words@ =~= when_words(*self));
                hashed(&words)
            },
            ProcWhen::OnKill => {
                let words = [4];
                assert(words@ =~= when_words(*self));
                hashed(&words)
            },
            ProcWhen::OnCast => {
                let words = [5];
                assert(words@ =~= when_words(*self));
                hashed(&words)
            },
            ProcWhen::OnTakeDamage => {
                let words = [6];
                assert(words@ =~= when_words(*self));
                hashed(&words)
            },
            ProcWhen::OnLowHealth { frac } => {
                let words = [7, frac.to_word()];
                assert(words@ =~= when_words(*self));
                hashed(&words)
            },
            ProcWhen::OnBlock => {
                let words = [8];
                assert(words@ =~= when_words(*self));
                hashed(&words)
            },
            ProcWhen::OnDash => {
                let words = [9];
                assert(words@ =~= when_words(*self));
                hashed(&words)
            },
            ProcWhen::Aura => {
                let words = [10];
                assert(words@ =~= when_words(*self));
                hashed(&words)
            },
            ProcWhen::Interval { secs } => {
                let words = [11, secs.to_word()];
                assert(words@ =~= when_words(*self));
                hashed(&words)
            },
        }
    }
}

/// What a proc does, as words.
pub open spec fn proc_words(d: ProcEffect) -> Seq<u64> {
    match d {
        ProcEffect::CastSpell { spell } => seq![1, spell.word()],
        ProcEffect::BuffSelf { status, duration_s, stacks } => seq![
            2,
            status.word(),
            duration_s.word(),
            stacks.word(),
        ],
        ProcEffect::DebuffTarget { status, duration_s, stacks } => seq![
            3,
            status.word(),
            duration_s.word(),
            stacks.word(),
        ],
        ProcEffect::Nova { element, radius, damage } => seq![
            4,
            element.word(),
            radius.word(),
            damage.word(),
        ],
        ProcEffect::ChainBolt { element, jumps, damage } => seq![
            5,
            element.word(),
            jumps.word(),
            damage.word(),
        ],
        ProcEffect::Heal { amount } => seq![6, amount.word()],
        ProcEffect::Shield { amount, duration_s } => seq![7, amount.word(), duration_s.word()],
        ProcEffect::TempStats { mods, duration_s } => seq![8, mods.word(), duration_s.word()],
        ProcEffect::Summon { mob, count, duration_s } => seq![
            9,
            mob.word(),
            count.word(),
            duration_s.word(),
        ],
    }
}

impl Worded for ProcEffect {
    open spec fn word(&self) -> u64 {
        fnv_words(proc_words(*self))
    }

    fn to_word(&self) -> (r: u64) {
        match self {
            ProcEffect::CastSpell { spell } => {
                let words = [1, spell.to_word()];
                assert(words@ =~= proc_words(*self));
                hashed(&words)
            },
            ProcEffect::BuffSelf { status, duration_s, stacks } => {
                let words = [2, status.to_word(), duration_s.to_word(), stacks.to_word()];
                assert(words@ =~= proc_words(*self));
                hashed(&words)
            },
            ProcEffect::DebuffTarget { status, duration_s, stacks } => {
                let words = [3, status.to_word(), duration_s.to_word(), stacks.to_word()];
                assert(words@ =~= proc_words(*self));
                hashed(&words)
            },
            ProcEffect::Nova { element, radius, damage } => {
                let words = [4, element.to_word(), radius.to_word(), damage.to_word()];
                assert(words@ =~= proc_words(*self));
                hashed(&words)
            },
            ProcEffect::ChainBolt { element, jumps, damage } => {
                let words = [5, element.to_word(), jumps.to_word(), damage.to_word()];
                assert(words@ =~= proc_words(*self));
                hashed(&words)
            },
            ProcEffect::Heal { amount } => {
                let words = [6, amount.to_word()];
                assert(words@ =~= proc_words(*self));
                hashed(&words)
            },
            ProcEffect::Shield { amount, duration_s } => {
                let words = [7, amount.to_word(), duration_s.to_word()];
                assert(words@ =~= proc_words(*self));
                hashed(&words)
            },
            ProcEffect::TempStats { mods, duration_s } => {
                let words = [8, mods.to_word(), duration_s.to_word()];
                assert(words@ =~= proc_words(*self));
                hashed(&words)
            },
            ProcEffect::Summon { mob, count, duration_s } => {
                let words = [9, mob.to_word(), count.to_word(), duration_s.to_word()];
                assert(words@ =~= proc_words(*self));
                hashed(&words)
            },
        }
    }
}

/// A proc as words.
pub open spec fn trigger_words(d: ItemTrigger) -> Seq<u64> {
    seq![
        d.label.word(),
        d.when.word(),
        d.chance.word(),
        d.icd_s.word(),
        d.effect.word(),
    ]
}

impl Worded for ItemTrigger {
    open spec fn word(&self) -> u64 {
        fnv_words(trigger_words(*self))
    }

    fn to_word(&self) -> (r: u64) {
        let words = [
            self.label.to_word(),
            self.when.to_word(),
            self.chance.to_word(),
            self.icd_s.to_word(),
            self.effect.to_word(),
        ];
        assert(words@ =~= trigger_words(*self));
        hashed(&words)
    }
}

/// An upgrade profile as words.
pub open spec fn upgrade_words(d: UpgradeProfile) -> Seq<u64> {
    seq![
        d.max_level.word(),
        d.stat_growth.word(),
        d.proc_growth.word(),
        d.essence.word(),
        d.essence_cost_base.word(),
        d.safe_until.word(),
        d.fail_chance_per_level.word(),
    ]
}

impl Worded for UpgradeProfile {
    open spec fn word(&self) -> u64 {
        fnv_words(upgrade_words(*self))
    }

    fn to_word(&self) -> (r: u64) {
        let words = [
            self.max_level.to_word(),
            self.stat_growth.to_word(),
            self.proc_growth.to_word(),
            self.essence.to_word(),
            self.essence_cost_base.to_word(),
            self.safe_until.to_word(),
            self.fail_chance_per_level.to_word(),
        ];
        assert(words@ =~= upgrade_words(*self));
        hashed(&words)
    }
}

/// A recipe as words.
pub open spec fn recipe_words(d: CraftRecipe) -> Seq<u64> {
    seq![
        d.inputs.word(),
        d.tech_req.word(),
    ]
}

impl Worded for CraftRecipe {
    open spec fn word(&self) -> u64 {
        fnv_words(recipe_words(*self))
    }

    fn to_word(&self) -> (r: u64) {
        let words = [
            self.inputs.to_word(),
            self.tech_req.to_word(),
        ];
        assert(words@ =~= recipe_words(*self));
        hashed(&words)
    }
}

/// An item as words.
pub open spec fn item_words(d: ItemDef) -> Seq<u64> {
    seq![
        d.id.word(),
        d.name.word(),
        d.description.word(),
        d.rarity.word(),
        d.slot.word(),
        d.stat_mods.word(),
        d.triggers.word(),
        d.grants_spells.word(),
        d.grants_movement.word(),
        d.grants_abilities.word(),
        d.material.word(),
        d.stackable.word(),
        d.max_stack.word(),
        d.on_use.word(),
        d.level_req.word(),
        d.craft.word(),
        d.base_sockets.word(),
        d.affix_tags.word(),
        d.set.word(),
        d.upgrade.word(),
        d.unique.word(),
        d.soulbound.word(),
    ]
}

impl Worded for ItemDef {
    open spec fn word(&self) -> u64 {
        fnv_words(item_words(*self))
    }

    fn to_word(&self) -> (r: u64) {
        let words = [
            self.id.to_word(),
            self.name.to_word(),
            self.description.to_word(),
            self.rarity.to_word(),
            self.slot.to_word(),
            self.stat_mods.to_word(),
            self.triggers.to_word(),
            self.grants_spells.to_word(),
            self.grants_movement.to_word(),
            self.grants_abilities.to_word(),
            self.material.to_word(),
            self.stackable.to_word(),
            self.max_stack.to_word(),
            self.on_use.to_word(),
            self.level_req.to_word(),
            self.craft.to_word(),
            self.base_sockets.to_word(),
            self.affix_tags.to_word(),
            self.set.to_word(),
            self.upgrade.to_word(),
            self.unique.to_word(),
            self.soulbound.to_word(),
        ];
        assert(words@ =~= item_words(*self));
        hashed(&words)
    }
}

/// A scaling as words.
pub open spec fn scaling_words(d: Scaling) -> Seq<u64> {
    seq![
        d.power.word(),
        d.focus.word(),
        d.agility.word(),
        d.level.word(),
    ]
}

impl Worded for Scaling {
    open spec fn word(&self) -> u64 {
        fnv_words(scaling_words(*self))
    }

    fn to_word(&self) -> (r: u64) {
        let words = [
            self.power.to_word(),
            self.focus.to_word(),
            self.agility.to_word(),
            self.level.to_word(),
        ];
        assert(words@ =~= scaling_words(*self));
        hashed(&words)
    }
}

/// What a status does, as words.
pub open spec fn mechanic_words(d: StatusKind) -> Seq<u64> {
    match d {
        StatusKind::DamageOverTime { element, dps } => seq![1, element.word(), dps.word()],
        StatusKind::Slow { frac } => seq![2, frac.word()],
        StatusKind::Haste { frac } => seq![3, frac.word()],
        StatusKind::Root => seq![4],
        StatusKind::Silence => seq![5],
        StatusKind::Levitate => seq![6],
        StatusKind::Burning { dps } => seq![7, dps.word()],
        StatusKind::Frozen => seq![8],
        StatusKind::Regen { hps } => seq![9, hps.word()],
        StatusKind::ManaBurn { mps } => seq![10, mps.word()],
        StatusKind::Vulnerable { frac } => seq![11, frac.word()],
        StatusKind::Empower { frac } => seq![12, frac.word()],
        StatusKind::Invisible => seq![13],
        StatusKind::Shielded { amount } => seq![14, amount.word()],
    }
}

impl Worded for StatusKind {
    open spec fn word(&self) -> u64 {
        fnv_words(mechanic_words(*self))
    }

    fn to_word(&self) -> (r: u64) {
        match self {
            StatusKind::DamageOverTime { element, dps } => {
                let words = [1, element.to_word(), dps.to_word()];
                assert(words@ =~= mechanic_words(*self));
                hashed(&words)
            },
            StatusKind::Slow { frac } => {
                let words = [2, frac.to_word()];
                assert(words@ =~= mechanic_words(*self));
                hashed(&words)
            },
            StatusKind::Haste { frac } => {
                let words = [3, frac.to_word()];
                assert(words@ =~= mechanic_words(*self));
                hashed(&words)
            },
            StatusKind::Root => {
                let words = [4];
                assert(words@ =~= mechanic_words(*self));
                hashed(&words)
            },
            StatusKind::Silence => {
                let words = [5];
                assert(words@ =~= mechanic_words(*self));
                hashed(&words)
            },
            StatusKind::Levitate => {
                let words = [6];
                assert(words@ =~= mechanic_words(*self));
                hashed(&words)
            },
            StatusKind::Burning { dps } => {
                let words = [7, dps.to_word()];
                assert(words@ =~= mechanic_words(*self));
                hashed(&words)
            },
            StatusKind::Frozen => {
                let words = [8];
                assert(words@ =~= mechanic_words(*self));
                hashed(&words)
            },
            StatusKind::Regen { hps } => {
                let words = [9, hps.to_word()];
                assert(words@ =~= mechanic_words(*self));
                hashed(&words)
            },
            StatusKind::ManaBurn { mps } => {
                let words = [10, mps.to_word()];
                assert(words@ =~= mechanic_words(*self));
                hashed(&words)
            },
            StatusKind::Vulnerable { frac } => {
                let words = [11, frac.to_word()];
                assert(words@ =~= mechanic_words(*self));
                hashed(&words)
            },
            StatusKind::Empower { frac } => {
                let words = [12, frac.to_word()];
                assert(words@ =~= mechanic_words(*self));
                hashed(&words)
            },
            StatusKind::Invisible => {
                let words = [13];
                assert(words@ =~= mechanic_words(*self));
                hashed(&words)
            },
            StatusKind::Shielded { amount } => {
                let words = [14, amount.to_word()];
                assert(words@ =~= mechanic_words(*self));
                hashed(&words)
            },
        }
    }
}

/// A status as words.
pub open spec fn status_words(d: StatusEffectDef) -> Seq<u64> {
    seq![
        d.id.word(),
        d.name.word(),
        d.kind.word(),
        d.max_stacks.word(),
        d.tick_interval_s.word(),
        d.duration_default_s.word(),
        d.beneficial.word(),
        d.material.word(),
    ]
}

impl Worded for StatusEffectDef {
    open spec fn word(&self) -> u64 {
        fnv_words(status_words(*self))
    }

    fn to_word(&self) -> (r: u64) {
        let words = [
            self.id.to_word(),
            self.name.to_word(),
            self.kind.to_word(),
            self.max_stacks.to_word(),
            self.tick_interval_s.to_word(),
            self.duration_default_s.to_word(),
            self.beneficial.to_word(),
            self.material.to_word(),
        ];
        assert(words@ =~= status_words(*self));
        hashed(&words)
    }
}

/// An effect op as words: which it is, its own numbers and names, and one word for each op
/// below it; the ops of a list make one word together.
pub open spec fn op_words(op: EffectOp) -> Seq<u64>
    decreases op, 1nat, 0nat,
{
    match op {
        EffectOp::Ray { range, pierce, then } => seq![
            1,
            range.word(),
            pierce.word(),
            op_word(*then),
        ],
        EffectOp::Projectile { speed, gravity, radius, lifetime_s, homing, on_hit } => seq![
            2,
            speed.word(),
            gravity.word(),
            radius.word(),
            lifetime_s.word(),
            homing.word(),
            op_word(*on_hit),
        ],
        EffectOp::Area { radius, faction, falloff, then } => seq![
            3,
            radius.word(),
            faction.word(),
            falloff.word(),
            op_word(*then),
        ],
        EffectOp::Cone { range, half_angle_rad, faction, then } => seq![
            4,
            range.word(),
            half_angle_rad.word(),
            faction.word(),
            op_word(*then),
        ],
        EffectOp::Field { radius, duration_s, interval_s, faction, tick } => seq![
            5,
            radius.word(),
            duration_s.word(),
            interval_s.word(),
            faction.word(),
            op_word(*tick),
        ],
        EffectOp::Damage { amount, element } => seq![6, amount.word(), element.word()],
        EffectOp::Heal { amount } => seq![7, amount.word()],
        EffectOp::Shield { amount, duration_s } => seq![8, amount.word(), duration_s.word()],
        EffectOp::ApplyStatus { status, duration_s, stacks } => seq![
            9,
            status.word(),
            duration_s.word(),
            stacks.word(),
        ],
        EffectOp::Impulse { force, vertical_bias } => seq![10, force.word(), vertical_bias.word()],
        EffectOp::Teleport { max_distance, to_target } => seq![
            11,
            max_distance.word(),
            to_target.word(),
        ],
        EffectOp::Summon { mob, count, duration_s } => seq![
            12,
            mob.word(),
            count.word(),
            duration_s.word(),
        ],
        EffectOp::RestoreMana { amount } => seq![13, amount.word()],
        EffectOp::Mark { tag, duration_s } => seq![14, tag.word(), duration_s.word()],
        EffectOp::Sequence(_) => seq![15, fnv_words(op_words_below(op, op.below().len()))],
        EffectOp::Parallel(_) => seq![16, fnv_words(op_words_below(op, op.below().len()))],
        EffectOp::Delay { secs, then } => seq![17, secs.word(), op_word(*then)],
        EffectOp::Repeat { count, interval_s, op: below } => seq![
            18,
            count.word(),
            interval_s.word(),
            op_word(*below),
        ],
        EffectOp::Chance { chance, then } => seq![19, chance.word(), op_word(*then)],
        EffectOp::IfMarked { tag, then, otherwise } => seq![
            20,
            tag.word(),
            op_word(*then),
            op_word(*otherwise),
        ],
        EffectOp::Noop => seq![21],
    }
}

/// The words of the first `n` ops directly below.
pub open spec fn op_words_below(op: EffectOp, n: nat) -> Seq<u64>
    decreases op, 0nat, n,
{
    if n == 0 || n > op.below().len() {
        Seq::empty()
    } else {
        proof {
            op.below_is_smaller(n - 1);
        }
        op_words_below(op, (n - 1) as nat).push(op_word(op.below()[n - 1]))
    }
}

/// The word that tells an effect op.
pub open spec fn op_word(op: EffectOp) -> u64
    decreases op, 2nat, 0nat,
{
    fnv_words(op_words(op))
}

fn word_of_op(op: &EffectOp) -> (r: u64)
    ensures
        r == op_word(*op),
    decreases op,
{
    match op {
        EffectOp::Ray { range, pierce, then } => {
            let words = [1, range.to_word(), pierce.to_word(), word_of_op(then)];
            assert(words@ =~= op_words(*op));
            hashed(&words)
        },
        EffectOp::Projectile { speed, gravity, radius, lifetime_s, homing, on_hit } => {
            let words = [
                2,
                speed.to_word(),
                gravity.to_word(),
                radius.to_word(),
                lifetime_s.to_word(),
                homing.to_word(),
                word_of_op(on_hit),
            ];
            assert(words@ =~= op_words(*op));
            hashed(&words)
        },
        EffectOp::Area { radius, faction, falloff, then } => {
            let words = [
                3,
                radius.to_word(),
                faction.to_word(),
                falloff.to_word(),
                word_of_op(then),
            ];
            assert(words@ =~= op_words(*op));
            hashed(&words)
        },
        EffectOp::Cone { range, half_angle_rad, faction, then } => {
            let words = [
                4,
                range.to_word(),
                half_angle_rad.to_word(),
                faction.to_word(),
                word_of_op(then),
            ];
            assert(words@ =~= op_words(*op));
            hashed(&words)
        },
        EffectOp::Field { radius, duration_s, interval_s, faction, tick } => {
            let words = [
                5,
                radius.to_word(),
                duration_s.to_word(),
                interval_s.to_word(),
                faction.to_word(),
                word_of_op(tick),
            ];
            assert(words@ =~= op_words(*op));
            hashed(&words)
        },
        EffectOp::Damage { amount, element } => {
            let words = [6, amount.to_word(), element.to_word()];
            assert(words@ =~= op_words(*op));
            hashed(&words)
        },
        EffectOp::Heal { amount } => {
            let words = [7, amount.to_word()];
            assert(words@ =~= op_words(*op));
            hashed(&words)
        },
        EffectOp::Shield { amount, duration_s } => {
            let words = [8, amount.to_word(), duration_s.to_word()];
            assert(words@ =~= op_words(*op));
            hashed(&words)
        },
        EffectOp::ApplyStatus { status, duration_s, stacks } => {
            let words = [9, status.to_word(), duration_s.to_word(), stacks.to_word()];
            assert(words@ =~= op_words(*op));
            hashed(&words)
        },
        EffectOp::Impulse { force, vertical_bias } => {
            let words = [10, force.to_word(), vertical_bias.to_word()];
            assert(words@ =~= op_words(*op));
            hashed(&words)
        },
        EffectOp::Teleport { max_distance, to_target } => {
            let words = [11, max_distance.to_word(), to_target.to_word()];
            assert(words@ =~= op_words(*op));
            hashed(&words)
        },
        EffectOp::Summon { mob, count, duration_s } => {
            let words = [12, mob.to_word(), count.to_word(), duration_s.to_word()];
            assert(words@ =~= op_words(*op));
            hashed(&words)
        },
        EffectOp::RestoreMana { amount } => {
            let words = [13, amount.to_word()];
            assert(words@ =~= op_words(*op));
            hashed(&words)
        },
        EffectOp::Mark { tag, duration_s } => {
            let words = [14, tag.to_word(), duration_s.to_word()];
            assert(words@ =~= op_words(*op));
            hashed(&words)
        },
        EffectOp::Sequence(ops) => {
            let mut words: Vec<u64> = Vec::new();
            let mut i: usize = 0;
            while i < ops.len()
                invariant
                    i <= ops.len(),
                    ops@ == op.below(),
                    words@ == op_words_below(*op, i as nat),
                decreases ops.len() - i,
            {
                proof {
                    op.below_is_smaller(i as int);
                }
                words.push(word_of_op(&ops[i]));
                i = i + 1;
            }
            let words = [15, fnv1a_words(words.as_slice())];
            assert(words@ =~= op_words(*op));
            hashed(&words)
        },
        EffectOp::Parallel(ops) => {
            let mut words: Vec<u64> = Vec::new();
            let mut i: usize = 0;
            while i < ops.len()
                invariant
                    i <= ops.len(),
                    ops@ == op.below(),
                    words@ == op_words_below(*op, i as nat),
                decreases ops.len() - i,
            {
                proof {
                    op.below_is_smaller(i as int);
                }
                words.push(word_of_op(&ops[i]));
                i = i + 1;
            }
            let words = [16, fnv1a_words(words.as_slice())];
            assert(words@ =~= op_words(*op));
            hashed(&words)
        },
        EffectOp::Delay { secs, then } => {
            let words = [17, secs.to_word(), word_of_op(then)];
            assert(words@ =~= op_words(*op));
            hashed(&words)
        },
        EffectOp::Repeat { count, interval_s, op: below } => {
            let words = [18, count.to_word(), interval_s.to_word(), word_of_op(below)];
            assert(words@ =~= op_words(*op));
            hashed(&words)
        },
        EffectOp::Chance { chance, then } => {
            let words = [19, chance.to_word(), word_of_op(then)];
            assert(words@ =~= op_words(*op));
            hashed(&words)
        },
        EffectOp::IfMarked { tag, then, otherwise } => {
            let words = [20, tag.to_word(), word_of_op(then), word_of_op(otherwise)];
            assert(words@ =~= op_words(*op));
            hashed(&words)
        },
        EffectOp::Noop => {
            let words = [21];
            assert(words@ =~= op_words(*op));
            hashed(&words)
        },
    }
}

impl Worded for EffectOp {
    open spec fn word(&self) -> u64 {
        op_word(*self)
    }

    fn to_word(&self) -> (r: u64) {
        word_of_op(self)
    }
}

/// A spell as words.
pub open spec fn spell_words(d: SpellDef) -> Seq<u64> {
    seq![
        d.id.word(),
        d.name.word(),
        d.description.word(),
        d.element.word(),
        d.mana_cost.word(),
        d.cast_time.word(),
        d.cooldown.word(),
        d.channeled.word(),
        d.scaling.word(),
        d.root.word(),
        d.author_cost.word(),
    ]
}

impl Worded for SpellDef {
    open spec fn word(&self) -> u64 {
        fnv_words(spell_words(*self))
    }

    fn to_word(&self) -> (r: u64) {
        let words = [
            self.id.to_word(),
            self.name.to_word(),
            self.description.to_word(),
            self.element.to_word(),
            self.mana_cost.to_word(),
            self.cast_time.to_word(),
            self.cooldown.to_word(),
            self.channeled.to_word(),
            self.scaling.to_word(),
            self.root.to_word(),
            self.author_cost.to_word(),
        ];
        assert(words@ =~= spell_words(*self));
        hashed(&words)
    }
}

/// An ability is told whole: two that are told by the same words agree, word by word, in
/// every field.
pub proof fn abilities_are_told_whole(a: AbilityDef, b: AbilityDef)
    requires
        ability_words(a) == ability_words(b),
    ensures
        a.id.word() == b.id.word(),
        a.name.word() == b.name.word(),
        a.spell.word() == b.spell.word(),
        a.binding.word() == b.binding.word(),
        a.cooldown_override.word() == b.cooldown_override.word(),
        a.icon_material.word() == b.icon_material.word(),
{
    assert(ability_words(a)[0] == ability_words(b)[0]);
    assert(ability_words(a)[1] == ability_words(b)[1]);
    assert(ability_words(a)[2] == ability_words(b)[2]);
    assert(ability_words(a)[3] == ability_words(b)[3]);
    assert(ability_words(a)[4] == ability_words(b)[4]);
    assert(ability_words(a)[5] == ability_words(b)[5]);
}

/// A shader is told whole: two that are told by the same words agree, word by word, in
/// every field.
pub proof fn shaders_are_told_whole(a: ShaderDef, b: ShaderDef)
    requires
        shader_words(a) == shader_words(b),
    ensures
        a.id.word() == b.id.word(),
        a.name.word() == b.name.word(),
        a.stage.word() == b.stage.word(),
        a.source.word() == b.source.word(),
        a.params.word() == b.params.word(),
{
    assert(shader_words(a)[0] == shader_words(b)[0]);
    assert(shader_words(a)[1] == shader_words(b)[1]);
    assert(shader_words(a)[2] == shader_words(b)[2]);
    assert(shader_words(a)[3] == shader_words(b)[3]);
    assert(shader_words(a)[4] == shader_words(b)[4]);
}

/// A set of per-element modifiers is told whole: two that are told by the same words agree, word by word, in
/// every field.
pub proof fn element_mods_are_told_whole(a: ElementMods, b: ElementMods)
    requires
        element_words(a) == element_words(b),
    ensures
        a.fire.word() == b.fire.word(),
        a.frost.word() == b.frost.word(),
        a.storm.word() == b.storm.word(),
        a.arcane.word() == b.arcane.word(),
        a.nature.word() == b.nature.word(),
        a.necro.word() == b.necro.word(),
        a.chrono.word() == b.chrono.word(),
        a.radiant.word() == b.radiant.word(),
        a.physical.word() == b.physical.word(),
{
    assert(element_words(a)[0] == element_words(b)[0]);
    assert(element_words(a)[1] == element_words(b)[1]);
    assert(element_words(a)[2] == element_words(b)[2]);
    assert(element_words(a)[3] == element_words(b)[3]);
    assert(element_words(a)[4] == element_words(b)[4]);
    assert(element_words(a)[5] == element_words(b)[5]);
    assert(element_words(a)[6] == element_words(b)[6]);
    assert(element_words(a)[7] == element_words(b)[7]);
    assert(element_words(a)[8] == element_words(b)[8]);
}

/// A set of stat modifiers is told whole: two that are told by the same words agree, word by word, in
/// every field.
pub proof fn stat_mods_are_told_whole(a: StatMods, b: StatMods)
    requires
        stat_words(a) == stat_words(b),
    ensures
        a.power.word() == b.power.word(),
        a.focus.word() == b.focus.word(),
        a.agility.word() == b.agility.word(),
        a.vitality.word() == b.vitality.word(),
        a.max_mana.word() == b.max_mana.word(),
        a.max_health.word() == b.max_health.word(),
        a.max_stamina.word() == b.max_stamina.word(),
        a.mana_regen.word() == b.mana_regen.word(),
        a.health_regen.word() == b.health_regen.word(),
        a.spell_power_pct.word() == b.spell_power_pct.word(),
        a.cooldown_reduction.word() == b.cooldown_reduction.word(),
        a.cast_speed_pct.word() == b.cast_speed_pct.word(),
        a.range_pct.word() == b.range_pct.word(),
        a.aoe_radius_pct.word() == b.aoe_radius_pct.word(),
        a.projectile_speed_pct.word() == b.projectile_speed_pct.word(),
        a.extra_projectiles.word() == b.extra_projectiles.word(),
        a.pierce.word() == b.pierce.word(),
        a.area_damage.word() == b.area_damage.word(),
        a.crit_chance.word() == b.crit_chance.word(),
        a.crit_damage.word() == b.crit_damage.word(),
        a.lifesteal.word() == b.lifesteal.word(),
        a.mana_leech.word() == b.mana_leech.word(),
        a.health_on_kill.word() == b.health_on_kill.word(),
        a.mana_on_kill.word() == b.mana_on_kill.word(),
        a.armor.word() == b.armor.word(),
        a.armor_pct.word() == b.armor_pct.word(),
        a.block_chance.word() == b.block_chance.word(),
        a.thorns.word() == b.thorns.word(),
        a.tenacity.word() == b.tenacity.word(),
        a.fall_damage_pct.word() == b.fall_damage_pct.word(),
        a.melee_power_pct.word() == b.melee_power_pct.word(),
        a.melee_range.word() == b.melee_range.word(),
        a.attack_speed_pct.word() == b.attack_speed_pct.word(),
        a.knockback_pct.word() == b.knockback_pct.word(),
        a.move_speed.word() == b.move_speed.word(),
        a.jump_count.word() == b.jump_count.word(),
        a.dash_charges.word() == b.dash_charges.word(),
        a.summon_power_pct.word() == b.summon_power_pct.word(),
        a.summon_count.word() == b.summon_count.word(),
        a.magic_find.word() == b.magic_find.word(),
        a.gold_find.word() == b.gold_find.word(),
        a.xp_gain_pct.word() == b.xp_gain_pct.word(),
        a.elem_damage.word() == b.elem_damage.word(),
        a.elem_resist.word() == b.elem_resist.word(),
{
    assert(stat_words(a)[0] == stat_words(b)[0]);
    assert(stat_words(a)[1] == stat_words(b)[1]);
    assert(stat_words(a)[2] == stat_words(b)[2]);
    assert(stat_words(a)[3] == stat_words(b)[3]);
    assert(stat_words(a)[4] == stat_words(b)[4]);
    assert(stat_words(a)[5] == stat_words(b)[5]);
    assert(stat_words(a)[6] == stat_words(b)[6]);
    assert(stat_words(a)[7] == stat_words(b)[7]);
    assert(stat_words(a)[8] == stat_words(b)[8]);
    assert(stat_words(a)[9] == stat_words(b)[9]);
    assert(stat_words(a)[10] == stat_words(b)[10]);
    assert(stat_words(a)[11] == stat_words(b)[11]);
    assert(stat_words(a)[12] == stat_words(b)[12]);
    assert(stat_words(a)[13] == stat_words(b)[13]);
    assert(stat_words(a)[14] == stat_words(b)[14]);
    assert(stat_words(a)[15] == stat_words(b)[15]);
    assert(stat_words(a)[16] == stat_words(b)[16]);
    assert(stat_words(a)[17] == stat_words(b)[17]);
    assert(stat_words(a)[18] == stat_words(b)[18]);
    assert(stat_words(a)[19] == stat_words(b)[19]);
    assert(stat_words(a)[20] == stat_words(b)[20]);
    assert(stat_words(a)[21] == stat_words(b)[21]);
    assert(stat_words(a)[22] == stat_words(b)[22]);
    assert(stat_words(a)[23] == stat_words(b)[23]);
    assert(stat_words(a)[24] == stat_words(b)[24]);
    assert(stat_words(a)[25] == stat_words(b)[25]);
    assert(stat_words(a)[26] == stat_words(b)[26]);
    assert(stat_words(a)[27] == stat_words(b)[27]);
    assert(stat_words(a)[28] == stat_words(b)[28]);
    assert(stat_words(a)[29] == stat_words(b)[29]);
    assert(stat_words(a)[30] == stat_words(b)[30]);
    assert(stat_words(a)[31] == stat_words(b)[31]);
    assert(stat_words(a)[32] == stat_words(b)[32]);
    assert(stat_words(a)[33] == stat_words(b)[33]);
    assert(stat_words(a)[34] == stat_words(b)[34]);
    assert(stat_words(a)[35] == stat_words(b)[35]);
    assert(stat_words(a)[36] == stat_words(b)[36]);
    assert(stat_words(a)[37] == stat_words(b)[37]);
    assert(stat_words(a)[38] == stat_words(b)[38]);
    assert(stat_words(a)[39] == stat_words(b)[39]);
    assert(stat_words(a)[40] == stat_words(b)[40]);
    assert(stat_words(a)[41] == stat_words(b)[41]);
    assert(stat_words(a)[42] == stat_words(b)[42]);
    assert(stat_words(a)[43] == stat_words(b)[43]);
}

/// An item trigger is told whole: two that are told by the same words agree, word by word, in
/// every field.
pub proof fn item_triggers_are_told_whole(a: ItemTrigger, b: ItemTrigger)
    requires
        trigger_words(a) == trigger_words(b),
    ensures
        a.label.word() == b.label.word(),
        a.when.word() == b.when.word(),
        a.chance.word() == b.chance.word(),
        a.icd_s.word() == b.icd_s.word(),
        a.effect.word() == b.effect.word(),
{
    assert(trigger_words(a)[0] == trigger_words(b)[0]);
    assert(trigger_words(a)[1] == trigger_words(b)[1]);
    assert(trigger_words(a)[2] == trigger_words(b)[2]);
    assert(trigger_words(a)[3] == trigger_words(b)[3]);
    assert(trigger_words(a)[4] == trigger_words(b)[4]);
}

/// An upgrade profile is told whole: two that are told by the same words agree, word by word, in
/// every field.
pub proof fn upgrades_are_told_whole(a: UpgradeProfile, b: UpgradeProfile)
    requires
        upgrade_words(a) == upgrade_words(b),
    ensures
        a.max_level.word() == b.max_level.word(),
        a.stat_growth.word() == b.stat_growth.word(),
        a.proc_growth.word() == b.proc_growth.word(),
        a.essence.word() == b.essence.word(),
        a.essence_cost_base.word() == b.essence_cost_base.word(),
        a.safe_until.word() == b.safe_until.word(),
        a.fail_chance_per_level.word() == b.fail_chance_per_level.word(),
{
    assert(upgrade_words(a)[0] == upgrade_words(b)[0]);
    assert(upgrade_words(a)[1] == upgrade_words(b)[1]);
    assert(upgrade_words(a)[2] == upgrade_words(b)[2]);
    assert(upgrade_words(a)[3] == upgrade_words(b)[3]);
    assert(upgrade_words(a)[4] == upgrade_words(b)[4]);
    assert(upgrade_words(a)[5] == upgrade_words(b)[5]);
    assert(upgrade_words(a)[6] == upgrade_words(b)[6]);
}

/// A recipe is told whole: two that are told by the same words agree, word by word, in
/// every field.
pub proof fn recipes_are_told_whole(a: CraftRecipe, b: CraftRecipe)
    requires
        recipe_words(a) == recipe_words(b),
    ensures
        a.inputs.word() == b.inputs.word(),
        a.tech_req.word() == b.tech_req.word(),
{
    assert(recipe_words(a)[0] == recipe_words(b)[0]);
    assert(recipe_words(a)[1] == recipe_words(b)[1]);
}

/// An item is told whole: two that are told by the same words agree, word by word, in
/// every field.
pub proof fn items_are_told_whole(a: ItemDef, b: ItemDef)
    requires
        item_words(a) == item_words(b),
    ensures
        a.id.word() == b.id.word(),
        a.name.word() == b.name.word(),
        a.description.word() == b.description.word(),
        a.rarity.word() == b.rarity.word(),
        a.slot.word() == b.slot.word(),
        a.stat_mods.word() == b.stat_mods.word(),
        a.triggers.word() == b.triggers.word(),
        a.grants_spells.word() == b.grants_spells.word(),
        a.grants_movement.word() == b.grants_movement.word(),
        a.grants_abilities.word() == b.grants_abilities.word(),
        a.material.word() == b.material.word(),
        a.stackable.word() == b.stackable.word(),
        a.max_stack.word() == b.max_stack.word(),
        a.on_use.word() == b.on_use.word(),
        a.level_req.word() == b.level_req.word(),
        a.craft.word() == b.craft.word(),
        a.base_sockets.word() == b.base_sockets.word(),
        a.affix_tags.word() == b.affix_tags.word(),
        a.set.word() == b.set.word(),
        a.upgrade.word() == b.upgrade.word(),
        a.unique.word() == b.unique.word(),
        a.soulbound.word() == b.soulbound.word(),
{
    assert(item_words(a)[0] == item_words(b)[0]);
    assert(item_words(a)[1] == item_words(b)[1]);
    assert(item_words(a)[2] == item_words(b)[2]);
    assert(item_words(a)[3] == item_words(b)[3]);
    assert(item_words(a)[4] == item_words(b)[4]);
    assert(item_words(a)[5] == item_words(b)[5]);
    assert(item_words(a)[6] == item_words(b)[6]);
    assert(item_words(a)[7] == item_words(b)[7]);
    assert(item_words(a)[8] == item_words(b)[8]);
    assert(item_words(a)[9] == item_words(b)[9]);
    assert(item_words(a)[10] == item_words(b)[10]);
    assert(item_words(a)[11] == item_words(b)[11]);
    assert(item_words(a)[12] == item_words(b)[12]);
    assert(item_words(a)[13] == item_words(b)[13]);
    assert(item_words(a)[14] == item_words(b)[14]);
    assert(item_words(a)[15] == item_words(b)[15]);
    assert(item_words(a)[16] == item_words(b)[16]);
    assert(item_words(a)[17] == item_words(b)[17]);
    assert(item_words(a)[18] == item_words(b)[18]);
    assert(item_words(a)[19] == item_words(b)[19]);
    assert(item_words(a)[20] == item_words(b)[20]);
    assert(item_words(a)[21] == item_words(b)[21]);
}

/// A scaling is told whole: two that are told by the same words agree, word by word, in
/// every field.
pub proof fn scalings_are_told_whole(a: Scaling, b: Scaling)
    requires
        scaling_words(a) == scaling_words(b),
    ensures
        a.power.word() == b.power.word(),
        a.focus.word() == b.focus.word(),
        a.agility.word() == b.agility.word(),
        a.level.word() == b.level.word(),
{
    assert(scaling_words(a)[0] == scaling_words(b)[0]);
    assert(scaling_words(a)[1] == scaling_words(b)[1]);
    assert(scaling_words(a)[2] == scaling_words(b)[2]);
    assert(scaling_words(a)[3] == scaling_words(b)[3]);
}

/// A status is told whole: two that are told by the same words agree, word by word, in
/// every field.
pub proof fn statuses_are_told_whole(a: StatusEffectDef, b: StatusEffectDef)
    requires
        status_words(a) == status_words(b),
    ensures
        a.id.word() == b.id.word(),
        a.name.word() == b.name.word(),
        a.kind.word() == b.kind.word(),
        a.max_stacks.word() == b.max_stacks.word(),
        a.tick_interval_s.word() == b.tick_interval_s.word(),
        a.duration_default_s.word() == b.duration_default_s.word(),
        a.beneficial.word() == b.beneficial.word(),
        a.material.word() == b.material.word(),
{
    assert(status_words(a)[0] == status_words(b)[0]);
    assert(status_words(a)[1] == status_words(b)[1]);
    assert(status_words(a)[2] == status_words(b)[2]);
    assert(status_words(a)[3] == status_words(b)[3]);
    assert(status_words(a)[4] == status_words(b)[4]);
    assert(status_words(a)[5] == status_words(b)[5]);
    assert(status_words(a)[6] == status_words(b)[6]);
    assert(status_words(a)[7] == status_words(b)[7]);
}

/// A spell is told whole: two that are told by the same words agree, word by word, in
/// every field.
pub proof fn spells_are_told_whole(a: SpellDef, b: SpellDef)
    requires
        spell_words(a) == spell_words(b),
    ensures
        a.id.word() == b.id.word(),
        a.name.word() == b.name.word(),
        a.description.word() == b.description.word(),
        a.element.word() == b.element.word(),
        a.mana_cost.word() == b.mana_cost.word(),
        a.cast_time.word() == b.cast_time.word(),
        a.cooldown.word() == b.cooldown.word(),
        a.channeled.word() == b.channeled.word(),
        a.scaling.word() == b.scaling.word(),
        a.root.word() == b.root.word(),
        a.author_cost.word() == b.author_cost.word(),
{
    assert(spell_words(a)[0] == spell_words(b)[0]);
    assert(spell_words(a)[1] == spell_words(b)[1]);
    assert(spell_words(a)[2] == spell_words(b)[2]);
    assert(spell_words(a)[3] == spell_words(b)[3]);
    assert(spell_words(a)[4] == spell_words(b)[4]);
    assert(spell_words(a)[5] == spell_words(b)[5]);
    assert(spell_words(a)[6] == spell_words(b)[6]);
    assert(spell_words(a)[7] == spell_words(b)[7]);
    assert(spell_words(a)[8] == spell_words(b)[8]);
    assert(spell_words(a)[9] == spell_words(b)[9]);
    assert(spell_words(a)[10] == spell_words(b)[10]);
}

/// An input is told whole: two that are told by the same words are of one kind and
/// agree, word by word, in everything they say.
pub proof fn inputs_are_told_whole(a: CastInput, b: CastInput)
    requires
        input_words(a) == input_words(b),
    ensures
        match (a, b) {
            (CastInput::Primary, CastInput::Primary) => true,
            (CastInput::Secondary, CastInput::Secondary) => true,
            (CastInput::Slot(x), CastInput::Slot(y)) => x.word() == y.word(),
            _ => false,
        },
{
    let (x, y) = (input_words(a), input_words(b));
    assert(x.len() == y.len() && x[0] == y[0]);
    assert(1 < x.len() ==> x[1] == y[1]);
}

/// When a proc fires is told whole: two that are told by the same words are of one kind and
/// agree, word by word, in everything they say.
pub proof fn occasions_are_told_whole(a: ProcWhen, b: ProcWhen)
    requires
        when_words(a) == when_words(b),
    ensures
        match (a, b) {
            (ProcWhen::OnHit, ProcWhen::OnHit) => true,
            (ProcWhen::OnCrit, ProcWhen::OnCrit) => true,
            (ProcWhen::OnMelee, ProcWhen::OnMelee) => true,
            (ProcWhen::OnKill, ProcWhen::OnKill) => true,
            (ProcWhen::OnCast, ProcWhen::OnCast) => true,
            (ProcWhen::OnTakeDamage, ProcWhen::OnTakeDamage) => true,
            (
                ProcWhen::OnLowHealth { frac: a0 },
                ProcWhen::OnLowHealth { frac: b0 },
            ) => a0.word() == b0.word(),
            (ProcWhen::OnBlock, ProcWhen::OnBlock) => true,
            (ProcWhen::OnDash, ProcWhen::OnDash) => true,
            (ProcWhen::Aura, ProcWhen::Aura) => true,
            (
                ProcWhen::Interval { secs: a0 },
                ProcWhen::Interval { secs: b0 },
            ) => a0.word() == b0.word(),
            _ => false,
        },
{
    let (x, y) = (when_words(a), when_words(b));
    assert(x.len() == y.len() && x[0] == y[0]);
    assert(1 < x.len() ==> x[1] == y[1]);
}

/// What a proc does is told whole: two that are told by the same words are of one kind and
/// agree, word by word, in everything they say.
pub proof fn procs_are_told_whole(a: ProcEffect, b: ProcEffect)
    requires
        proc_words(a) == proc_words(b),
    ensures
        match (a, b) {
            (
                ProcEffect::CastSpell { spell: a0 },
                ProcEffect::CastSpell { spell: b0 },
            ) => a0.word() == b0.word(),
            (
                ProcEffect::BuffSelf { status: a0, duration_s: a1, stacks: a2 },
                ProcEffect::BuffSelf { status: b0, duration_s: b1, stacks: b2 },
            ) => a0.word() == b0.word()
                && a1.word() == b1.word()
                && a2.word() == b2.word(),
            (
                ProcEffect::DebuffTarget { status: a0, duration_s: a1, stacks: a2 },
                ProcEffect::DebuffTarget { status: b0, duration_s: b1, stacks: b2 },
            ) => a0.word() == b0.word()
                && a1.word() == b1.word()
                && a2.word() == b2.word(),
            (
                ProcEffect::Nova { element: a0, radius: a1, damage: a2 },
                ProcEffect::Nova { element: b0, radius: b1, damage: b2 },
            ) => a0.word() == b0.word()
                && a1.word() == b1.word()
                && a2.word() == b2.word(),
            (
                ProcEffect::ChainBolt { element: a0, jumps: a1, damage: a2 },
                ProcEffect::ChainBolt { element: b0, jumps: b1, damage: b2 },
            ) => a0.word() == b0.word()
                && a1.word() == b1.word()
                && a2.word() == b2.word(),
            (
                ProcEffect::Heal { amount: a0 },
                ProcEffect::Heal { amount: b0 },
            ) => a0.word() == b0.word(),
            (
                ProcEffect::Shield { amount: a0, duration_s: a1 },
                ProcEffect::Shield { amount: b0, duration_s: b1 },
            ) => a0.word() == b0.word()
                && a1.word() == b1.word(),
            (
                ProcEffect::TempStats { mods: a0, duration_s: a1 },
                ProcEffect::TempStats { mods: b0, duration_s: b1 },
            ) => a0.word() == b0.word()
                && a1.word() == b1.word(),
            (
                ProcEffect::Summon { mob: a0, count: a1, duration_s: a2 },
                ProcEffect::Summon { mob: b0, count: b1, duration_s: b2 },
            ) => a0.word() == b0.word()
                && a1.word() == b1.word()
                && a2.word() == b2.word(),
            _ => false,
        },
{
    let (x, y) = (proc_words(a), proc_words(b));
    assert(x.len() == y.len() && x[0] == y[0]);
    assert(1 < x.len() ==> x[1] == y[1]);
    assert(2 < x.len() ==> x[2] == y[2]);
    assert(3 < x.len() ==> x[3] == y[3]);
}

/// What a status does is told whole: two that are told by the same words are of one kind and
/// agree, word by word, in everything they say.
pub proof fn mechanics_are_told_whole(a: StatusKind, b: StatusKind)
    requires
        mechanic_words(a) == mechanic_words(b),
    ensures
        match (a, b) {
            (
                StatusKind::DamageOverTime { element: a0, dps: a1 },
                StatusKind::DamageOverTime { element: b0, dps: b1 },
            ) => a0.word() == b0.word()
                && a1.word() == b1.word(),
            (
                StatusKind::Slow { frac: a0 },
                StatusKind::Slow { frac: b0 },
            ) => a0.word() == b0.word(),
            (
                StatusKind::Haste { frac: a0 },
                StatusKind::Haste { frac: b0 },
            ) => a0.word() == b0.word(),
            (StatusKind::Root, StatusKind::Root) => true,
            (StatusKind::Silence, StatusKind::Silence) => true,
            (StatusKind::Levitate, StatusKind::Levitate) => true,
            (
                StatusKind::Burning { dps: a0 },
                StatusKind::Burning { dps: b0 },
            ) => a0.word() == b0.word(),
            (StatusKind::Frozen, StatusKind::Frozen) => true,
            (
                StatusKind::Regen { hps: a0 },
                StatusKind::Regen { hps: b0 },
            ) => a0.word() == b0.word(),
            (
                StatusKind::ManaBurn { mps: a0 },
                StatusKind::ManaBurn { mps: b0 },
            ) => a0.word() == b0.word(),
            (
                StatusKind::Vulnerable { frac: a0 },
                StatusKind::Vulnerable { frac: b0 },
            ) => a0.word() == b0.word(),
            (
                StatusKind::Empower { frac: a0 },
                StatusKind::Empower { frac: b0 },
            ) => a0.word() == b0.word(),
            (StatusKind::Invisible, StatusKind::Invisible) => true,
            (
                StatusKind::Shielded { amount: a0 },
                StatusKind::Shielded { amount: b0 },
            ) => a0.word() == b0.word(),
            _ => false,
        },
{
    let (x, y) = (mechanic_words(a), mechanic_words(b));
    assert(x.len() == y.len() && x[0] == y[0]);
    assert(1 < x.len() ==> x[1] == y[1]);
    assert(2 < x.len() ==> x[2] == y[2]);
}

/// An effect op is told whole: two that are told by the same words are of one kind and
/// agree, word by word, in everything they say.
pub proof fn ops_are_told_whole(a: EffectOp, b: EffectOp)
    requires
        op_words(a) == op_words(b),
    ensures
        match (a, b) {
            (
                EffectOp::Ray { range: a0, pierce: a1, then: a2 },
                EffectOp::Ray { range: b0, pierce: b1, then: b2 },
            ) => a0.word() == b0.word()
                && a1.word() == b1.word()
                && op_word(*a2) == op_word(*b2),
            (
                EffectOp::Projectile { speed: a0, gravity: a1, radius: a2, lifetime_s: a3, homing: a4, on_hit: a5 },
                EffectOp::Projectile { speed: b0, gravity: b1, radius: b2, lifetime_s: b3, homing: b4, on_hit: b5 },
            ) => a0.word() == b0.word()
                && a1.word() == b1.word()
                && a2.word() == b2.word()
                && a3.word() == b3.word()
                && a4.word() == b4.word()
                && op_word(*a5) == op_word(*b5),
            (
                EffectOp::Area { radius: a0, faction: a1, falloff: a2, then: a3 },
                EffectOp::Area { radius: b0, faction: b1, falloff: b2, then: b3 },
            ) => a0.word() == b0.word()
                && a1.word() == b1.word()
                && a2.word() == b2.word()
                && op_word(*a3) == op_word(*b3),
            (
                EffectOp::Cone { range: a0, half_angle_rad: a1, faction: a2, then: a3 },
                EffectOp::Cone { range: b0, half_angle_rad: b1, faction: b2, then: b3 },
            ) => a0.word() == b0.word()
                && a1.word() == b1.word()
                && a2.word() == b2.word()
                && op_word(*a3) == op_word(*b3),
            (
                EffectOp::Field { radius: a0, duration_s: a1, interval_s: a2, faction: a3, tick: a4 },
                EffectOp::Field { radius: b0, duration_s: b1, interval_s: b2, faction: b3, tick: b4 },
            ) => a0.word() == b0.word()
                && a1.word() == b1.word()
                && a2.word() == b2.word()
                && a3.word() == b3.word()
                && op_word(*a4) == op_word(*b4),
            (
                EffectOp::Damage { amount: a0, element: a1 },
                EffectOp::Damage { amount: b0, element: b1 },
            ) => a0.word() == b0.word()
                && a1.word() == b1.word(),
            (
                EffectOp::Heal { amount: a0 },
                EffectOp::Heal { amount: b0 },
            ) => a0.word() == b0.word(),
            (
                EffectOp::Shield { amount: a0, duration_s: a1 },
                EffectOp::Shield { amount: b0, duration_s: b1 },
            ) => a0.word() == b0.word()
                && a1.word() == b1.word(),
            (
                EffectOp::ApplyStatus { status: a0, duration_s: a1, stacks: a2 },
                EffectOp::ApplyStatus { status: b0, duration_s: b1, stacks: b2 },
            ) => a0.word() == b0.word()
                && a1.word() == b1.word()
                && a2.word() == b2.word(),
            (
                EffectOp::Impulse { force: a0, vertical_bias: a1 },
                EffectOp::Impulse { force: b0, vertical_bias: b1 },
            ) => a0.word() == b0.word()
                && a1.word() == b1.word(),
            (
                EffectOp::Teleport { max_distance: a0, to_target: a1 },
                EffectOp::Teleport { max_distance: b0, to_target: b1 },
            ) => a0.word() == b0.word()
                && a1.word() == b1.word(),
            (
                EffectOp::Summon { mob: a0, count: a1, duration_s: a2 },
                EffectOp::Summon { mob: b0, count: b1, duration_s: b2 },
            ) => a0.word() == b0.word()
                && a1.word() == b1.word()
                && a2.word() == b2.word(),
            (
                EffectOp::RestoreMana { amount: a0 },
                EffectOp::RestoreMana { amount: b0 },
            ) => a0.word() == b0.word(),
            (
                EffectOp::Mark { tag: a0, duration_s: a1 },
                EffectOp::Mark { tag: b0, duration_s: b1 },
            ) => a0.word() == b0.word()
                && a1.word() == b1.word(),
            (EffectOp::Sequence(_), EffectOp::Sequence(_)) => fnv_words(op_words_below(a, a.below().len()))
                == fnv_words(op_words_below(b, b.below().len())),
            (EffectOp::Parallel(_), EffectOp::Parallel(_)) => fnv_words(op_words_below(a, a.below().len()))
                == fnv_words(op_words_below(b, b.below().len())),
            (
                EffectOp::Delay { secs: a0, then: a1 },
                EffectOp::Delay { secs: b0, then: b1 },
            ) => a0.word() == b0.word()
                && op_word(*a1) == op_word(*b1),
            (
                EffectOp::Repeat { count: a0, interval_s: a1, op: a2 },
                EffectOp::Repeat { count: b0, interval_s: b1, op: b2 },
            ) => a0.word() == b0.word()
                && a1.word() == b1.word()
                && op_word(*a2) == op_word(*b2),
            (
                EffectOp::Chance { chance: a0, then: a1 },
                EffectOp::Chance { chance: b0, then: b1 },
            ) => a0.word() == b0.word()
                && op_word(*a1) == op_word(*b1),
            (
                EffectOp::IfMarked { tag: a0, then: a1, otherwise: a2 },
                EffectOp::IfMarked { tag: b0, then: b1, otherwise: b2 },
            ) => a0.word() == b0.word()
                && op_word(*a1) == op_word(*b1)
                && op_word(*a2) == op_word(*b2),
            (EffectOp::Noop, EffectOp::Noop) => true,
            _ => false,
        },
{
    let (x, y) = (op_words(a), op_words(b));
    assert(x.len() == y.len() && x[0] == y[0]);
    assert(1 < x.len() ==> x[1] == y[1]);
    assert(2 < x.len() ==> x[2] == y[2]);
    assert(3 < x.len() ==> x[3] == y[3]);
    assert(4 < x.len() ==> x[4] == y[4]);
    assert(5 < x.len() ==> x[5] == y[5]);
    assert(6 < x.len() ==> x[6] == y[6]);
}

/// What fits in a word is told apart by it.
pub proof fn plain_words_tell_apart(
    scalars: (Scalar, Scalar),
    small: (u8, u8),
    middle: (u16, u16),
    large: (u32, u32),
    flags: (bool, bool),
    factions: (Faction, Faction),
    rarities: (Rarity, Rarity),
    slots: (EquipSlot, EquipSlot),
    stages: (ShaderStage, ShaderStage),
)
    ensures
        scalars.0.word() == scalars.1.word() ==> scalars.0 == scalars.1,
        small.0.word() == small.1.word() ==> small.0 == small.1,
        middle.0.word() == middle.1.word() ==> middle.0 == middle.1,
        large.0.word() == large.1.word() ==> large.0 == large.1,
        flags.0.word() == flags.1.word() ==> flags.0 == flags.1,
        factions.0.word() == factions.1.word() ==> factions.0 == factions.1,
        rarities.0.word() == rarities.1.word() ==> rarities.0 == rarities.1,
        slots.0.word() == slots.1.word() ==> slots.0 == slots.1,
        stages.0.word() == stages.1.word() ==> stages.0 == stages.1,
{
}

/// A list is told by one word for each member, in order, and so are the ops below an op.
pub proof fn members_are_told_in_order<T: Worded>(list: Seq<T>, i: int, op: EffectOp, n: nat, k: int)
    requires
        0 <= i < list.len(),
        0 <= k < n <= op.below().len(),
    ensures
        member_words(list).len() == list.len(),
        member_words(list)[i] == list[i].word(),
        op_words_below(op, n).len() == n,
        op_words_below(op, n)[k] == op_word(op.below()[k]),
    decreases n,
{
    if n > 1 {
        let below = if k < n - 1 {
            k
        } else {
            0
        };
        members_are_told_in_order(list, i, op, (n - 1) as nat, below);
    } else {
        assert(op_words_below(op, 0) =~= Seq::<u64>::empty());
    }
}

/// What is there, and both halves of a pair, are told.
pub proof fn options_and_pairs_are_told_whole<A: Worded, B: Worded>(
    x: Option<A>,
    y: Option<A>,
    p: (A, B),
    q: (A, B),
)
    ensures
        x matches Some(a) ==> y matches Some(b) ==> (x.word() == y.word() <==> a.word() == b.word()),
        x is None && y is None ==> x.word() == y.word(),
        p.1.word() == q.1.word() ==> (p.word() == q.word() <==> p.0.word() == q.0.word()),
        p.0.word() == q.0.word() ==> (p.word() == q.word() <==> p.1.word() == q.1.word()),
{
    if x is Some && y is Some {
        pair_hashes(1, x->0.word(), 1, y->0.word());
    }
    pair_hashes(p.0.word(), p.1.word(), q.0.word(), q.1.word());
}

proof fn pair_hashes(a: u64, b: u64, c: u64, d: u64)
    ensures
        a == c && b != d || a != c && b == d ==> fnv_words(seq![a, b]) != fnv_words(seq![c, d]),
{
    let (x, y) = (seq![a, b], seq![c, d]);
    if a == c && b != d {
        assert(x.update(1, y[1]) =~= y);
        changed_word_shows(x, y);
    }
    if a != c && b == d {
        assert(x.update(0, y[0]) =~= y);
        changed_word_shows(x, y);
    }
}

} // verus!
