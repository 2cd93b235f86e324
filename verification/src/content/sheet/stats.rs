//! Stat blocks: a few stats out of many, each with its value.

use crate::content::item::{ElementMods, StatMods};
use crate::content::sheet::{milli, thousandths};
use crate::scalar::{decimal, Scalar};
use vstd::prelude::*;

verus! {

/// What a line of a stat block sets.
#[derive(Debug, Clone, Copy, PartialEq, Eq, Structural)]
pub enum Stat {
    /// Nothing: an unused line.
    Unchanged,
    Power,
    Focus,
    Agility,
    Vitality,
    MaxMana,
    MaxHealth,
    MaxStamina,
    ManaRegen,
    HealthRegen,
    SpellPowerPct,
    CooldownReduction,
    CastSpeedPct,
    RangePct,
    AoeRadiusPct,
    ProjectileSpeedPct,
    ExtraProjectiles,
    Pierce,
    AreaDamage,
    CritChance,
    CritDamage,
    Lifesteal,
    ManaLeech,
    HealthOnKill,
    ManaOnKill,
    Armor,
    ArmorPct,
    BlockChance,
    Thorns,
    Tenacity,
    FallDamagePct,
    MeleePowerPct,
    MeleeRange,
    AttackSpeedPct,
    KnockbackPct,
    MoveSpeed,
    JumpCount,
    DashCharges,
    SummonPowerPct,
    SummonCount,
    MagicFind,
    GoldFind,
    XpGainPct,
    FireDamage,
    FrostDamage,
    StormDamage,
    ArcaneDamage,
    NatureDamage,
    NecroDamage,
    ChronoDamage,
    RadiantDamage,
    PhysicalDamage,
    FireResist,
    FrostResist,
    StormResist,
    ArcaneResist,
    NatureResist,
    NecroResist,
    ChronoResist,
    RadiantResist,
    PhysicalResist,
}

/// One line: a stat and its value.
pub type Line = (Stat, i32);

/// An unused line.
pub const NONE: Line = (Stat::Unchanged, 0);

/// No element changed.
pub open spec fn no_elements() -> ElementMods {
    ElementMods {
        fire: Scalar { bits: 0 },
        frost: Scalar { bits: 0 },
        storm: Scalar { bits: 0 },
        arcane: Scalar { bits: 0 },
        nature: Scalar { bits: 0 },
        necro: Scalar { bits: 0 },
        chrono: Scalar { bits: 0 },
        radiant: Scalar { bits: 0 },
        physical: Scalar { bits: 0 },
    }
}

/// No stat changed.
pub open spec fn no_mods() -> StatMods {
    StatMods {
        power: Scalar { bits: 0 },
        focus: Scalar { bits: 0 },
        agility: Scalar { bits: 0 },
        vitality: Scalar { bits: 0 },
        max_mana: Scalar { bits: 0 },
        max_health: Scalar { bits: 0 },
        max_stamina: Scalar { bits: 0 },
        mana_regen: Scalar { bits: 0 },
        health_regen: Scalar { bits: 0 },
        spell_power_pct: Scalar { bits: 0 },
        cooldown_reduction: Scalar { bits: 0 },
        cast_speed_pct: Scalar { bits: 0 },
        range_pct: Scalar { bits: 0 },
        aoe_radius_pct: Scalar { bits: 0 },
        projectile_speed_pct: Scalar { bits: 0 },
        extra_projectiles: Scalar { bits: 0 },
        pierce: Scalar { bits: 0 },
        area_damage: Scalar { bits: 0 },
        crit_chance: Scalar { bits: 0 },
        crit_damage: Scalar { bits: 0 },
        lifesteal: Scalar { bits: 0 },
        mana_leech: Scalar { bits: 0 },
        health_on_kill: Scalar { bits: 0 },
        mana_on_kill: Scalar { bits: 0 },
        armor: Scalar { bits: 0 },
        armor_pct: Scalar { bits: 0 },
        block_chance: Scalar { bits: 0 },
        thorns: Scalar { bits: 0 },
        tenacity: Scalar { bits: 0 },
        fall_damage_pct: Scalar { bits: 0 },
        melee_power_pct: Scalar { bits: 0 },
        melee_range: Scalar { bits: 0 },
        attack_speed_pct: Scalar { bits: 0 },
        knockback_pct: Scalar { bits: 0 },
        move_speed: Scalar { bits: 0 },
        jump_count: Scalar { bits: 0 },
        dash_charges: Scalar { bits: 0 },
        summon_power_pct: Scalar { bits: 0 },
        summon_count: Scalar { bits: 0 },
        magic_find: Scalar { bits: 0 },
        gold_find: Scalar { bits: 0 },
        xp_gain_pct: Scalar { bits: 0 },
        elem_damage: no_elements(),
        elem_resist: no_elements(),
    }
}

/// The stats with one of them set.
pub open spec fn with_stat(m: StatMods, stat: Stat, v: Scalar) -> StatMods {
    match stat {
        Stat::Unchanged => m,
        Stat::Power => StatMods { power: v, ..m },
        Stat::Focus => StatMods { focus: v, ..m },
        Stat::Agility => StatMods { agility: v, ..m },
        Stat::Vitality => StatMods { vitality: v, ..m },
        Stat::MaxMana => StatMods { max_mana: v, ..m },
        Stat::MaxHealth => StatMods { max_health: v, ..m },
        Stat::MaxStamina => StatMods { max_stamina: v, ..m },
        Stat::ManaRegen => StatMods { mana_regen: v, ..m },
        Stat::HealthRegen => StatMods { health_regen: v, ..m },
        Stat::SpellPowerPct => StatMods { spell_power_pct: v, ..m },
        Stat::CooldownReduction => StatMods { cooldown_reduction: v, ..m },
        Stat::CastSpeedPct => StatMods { cast_speed_pct: v, ..m },
        Stat::RangePct => StatMods { range_pct: v, ..m },
        Stat::AoeRadiusPct => StatMods { aoe_radius_pct: v, ..m },
        Stat::ProjectileSpeedPct => StatMods { projectile_speed_pct: v, ..m },
        Stat::ExtraProjectiles => StatMods { extra_projectiles: v, ..m },
        Stat::Pierce => StatMods { pierce: v, ..m },
        Stat::AreaDamage => StatMods { area_damage: v, ..m },
        Stat::CritChance => StatMods { crit_chance: v, ..m },
        Stat::CritDamage => StatMods { crit_damage: v, ..m },
        Stat::Lifesteal => StatMods { lifesteal: v, ..m },
        Stat::ManaLeech => StatMods { mana_leech: v, ..m },
        Stat::HealthOnKill => StatMods { health_on_kill: v, ..m },
        Stat::ManaOnKill => StatMods { mana_on_kill: v, ..m },
        Stat::Armor => StatMods { armor: v, ..m },
        Stat::ArmorPct => StatMods { armor_pct: v, ..m },
        Stat::BlockChance => StatMods { block_chance: v, ..m },
        Stat::Thorns => StatMods { thorns: v, ..m },
        Stat::Tenacity => StatMods { tenacity: v, ..m },
        Stat::FallDamagePct => StatMods { fall_damage_pct: v, ..m },
        Stat::MeleePowerPct => StatMods { melee_power_pct: v, ..m },
        Stat::MeleeRange => StatMods { melee_range: v, ..m },
        Stat::AttackSpeedPct => StatMods { attack_speed_pct: v, ..m },
        Stat::KnockbackPct => StatMods { knockback_pct: v, ..m },
        Stat::MoveSpeed => StatMods { move_speed: v, ..m },
        Stat::JumpCount => StatMods { jump_count: v, ..m },
        Stat::DashCharges => StatMods { dash_charges: v, ..m },
        Stat::SummonPowerPct => StatMods { summon_power_pct: v, ..m },
        Stat::SummonCount => StatMods { summon_count: v, ..m },
        Stat::MagicFind => StatMods { magic_find: v, ..m },
        Stat::GoldFind => StatMods { gold_find: v, ..m },
        Stat::XpGainPct => StatMods { xp_gain_pct: v, ..m },
        Stat::FireDamage => StatMods {
            elem_damage: ElementMods { fire: v, ..m.elem_damage },
            ..m
        },
        Stat::FrostDamage => StatMods {
            elem_damage: ElementMods { frost: v, ..m.elem_damage },
            ..m
        },
        Stat::StormDamage => StatMods {
            elem_damage: ElementMods { storm: v, ..m.elem_damage },
            ..m
        },
        Stat::ArcaneDamage => StatMods {
            elem_damage: ElementMods { arcane: v, ..m.elem_damage },
            ..m
        },
        Stat::NatureDamage => StatMods {
            elem_damage: ElementMods { nature: v, ..m.elem_damage },
            ..m
        },
        Stat::NecroDamage => StatMods {
            elem_damage: ElementMods { necro: v, ..m.elem_damage },
            ..m
        },
        Stat::ChronoDamage => StatMods {
            elem_damage: ElementMods { chrono: v, ..m.elem_damage },
            ..m
        },
        Stat::RadiantDamage => StatMods {
            elem_damage: ElementMods { radiant: v, ..m.elem_damage },
            ..m
        },
        Stat::PhysicalDamage => StatMods {
            elem_damage: ElementMods { physical: v, ..m.elem_damage },
            ..m
        },
        Stat::FireResist => StatMods {
            elem_resist: ElementMods { fire: v, ..m.elem_resist },
            ..m
        },
        Stat::FrostResist => StatMods {
            elem_resist: ElementMods { frost: v, ..m.elem_resist },
            ..m
        },
        Stat::StormResist => StatMods {
            elem_resist: ElementMods { storm: v, ..m.elem_resist },
            ..m
        },
        Stat::ArcaneResist => StatMods {
            elem_resist: ElementMods { arcane: v, ..m.elem_resist },
            ..m
        },
        Stat::NatureResist => StatMods {
            elem_resist: ElementMods { nature: v, ..m.elem_resist },
            ..m
        },
        Stat::NecroResist => StatMods {
            elem_resist: ElementMods { necro: v, ..m.elem_resist },
            ..m
        },
        Stat::ChronoResist => StatMods {
            elem_resist: ElementMods { chrono: v, ..m.elem_resist },
            ..m
        },
        Stat::RadiantResist => StatMods {
            elem_resist: ElementMods { radiant: v, ..m.elem_resist },
            ..m
        },
        Stat::PhysicalResist => StatMods {
            elem_resist: ElementMods { physical: v, ..m.elem_resist },
            ..m
        },
    }
}

fn set_stat(m: StatMods, stat: Stat, v: Scalar) -> (r: StatMods)
    ensures
        r == with_stat(m, stat, v),
{
    match stat {
        Stat::Unchanged => m,
        Stat::Power => StatMods { power: v, ..m },
        Stat::Focus => StatMods { focus: v, ..m },
        Stat::Agility => StatMods { agility: v, ..m },
        Stat::Vitality => StatMods { vitality: v, ..m },
        Stat::MaxMana => StatMods { max_mana: v, ..m },
        Stat::MaxHealth => StatMods { max_health: v, ..m },
        Stat::MaxStamina => StatMods { max_stamina: v, ..m },
        Stat::ManaRegen => StatMods { mana_regen: v, ..m },
        Stat::HealthRegen => StatMods { health_regen: v, ..m },
        Stat::SpellPowerPct => StatMods { spell_power_pct: v, ..m },
        Stat::CooldownReduction => StatMods { cooldown_reduction: v, ..m },
        Stat::CastSpeedPct => StatMods { cast_speed_pct: v, ..m },
        Stat::RangePct => StatMods { range_pct: v, ..m },
        Stat::AoeRadiusPct => StatMods { aoe_radius_pct: v, ..m },
        Stat::ProjectileSpeedPct => StatMods { projectile_speed_pct: v, ..m },
        Stat::ExtraProjectiles => StatMods { extra_projectiles: v, ..m },
        Stat::Pierce => StatMods { pierce: v, ..m },
        Stat::AreaDamage => StatMods { area_damage: v, ..m },
        Stat::CritChance => StatMods { crit_chance: v, ..m },
        Stat::CritDamage => StatMods { crit_damage: v, ..m },
        Stat::Lifesteal => StatMods { lifesteal: v, ..m },
        Stat::ManaLeech => StatMods { mana_leech: v, ..m },
        Stat::HealthOnKill => StatMods { health_on_kill: v, ..m },
        Stat::ManaOnKill => StatMods { mana_on_kill: v, ..m },
        Stat::Armor => StatMods { armor: v, ..m },
        Stat::ArmorPct => StatMods { armor_pct: v, ..m },
        Stat::BlockChance => StatMods { block_chance: v, ..m },
        Stat::Thorns => StatMods { thorns: v, ..m },
        Stat::Tenacity => StatMods { tenacity: v, ..m },
        Stat::FallDamagePct => StatMods { fall_damage_pct: v, ..m },
        Stat::MeleePowerPct => StatMods { melee_power_pct: v, ..m },
        Stat::MeleeRange => StatMods { melee_range: v, ..m },
        Stat::AttackSpeedPct => StatMods { attack_speed_pct: v, ..m },
        Stat::KnockbackPct => StatMods { knockback_pct: v, ..m },
        Stat::MoveSpeed => StatMods { move_speed: v, ..m },
        Stat::JumpCount => StatMods { jump_count: v, ..m },
        Stat::DashCharges => StatMods { dash_charges: v, ..m },
        Stat::SummonPowerPct => StatMods { summon_power_pct: v, ..m },
        Stat::SummonCount => StatMods { summon_count: v, ..m },
        Stat::MagicFind => StatMods { magic_find: v, ..m },
        Stat::GoldFind => StatMods { gold_find: v, ..m },
        Stat::XpGainPct => StatMods { xp_gain_pct: v, ..m },
        Stat::FireDamage => StatMods {
            elem_damage: ElementMods { fire: v, ..m.elem_damage },
            ..m
        },
        Stat::FrostDamage => StatMods {
            elem_damage: ElementMods { frost: v, ..m.elem_damage },
            ..m
        },
        Stat::StormDamage => StatMods {
            elem_damage: ElementMods { storm: v, ..m.elem_damage },
            ..m
        },
        Stat::ArcaneDamage => StatMods {
            elem_damage: ElementMods { arcane: v, ..m.elem_damage },
            ..m
        },
        Stat::NatureDamage => StatMods {
            elem_damage: ElementMods { nature: v, ..m.elem_damage },
            ..m
        },
        Stat::NecroDamage => StatMods {
            elem_damage: ElementMods { necro: v, ..m.elem_damage },
            ..m
        },
        Stat::ChronoDamage => StatMods {
            elem_damage: ElementMods { chrono: v, ..m.elem_damage },
            ..m
        },
        Stat::RadiantDamage => StatMods {
            elem_damage: ElementMods { radiant: v, ..m.elem_damage },
            ..m
        },
        Stat::PhysicalDamage => StatMods {
            elem_damage: ElementMods { physical: v, ..m.elem_damage },
            ..m
        },
        Stat::FireResist => StatMods {
            elem_resist: ElementMods { fire: v, ..m.elem_resist },
            ..m
        },
        Stat::FrostResist => StatMods {
            elem_resist: ElementMods { frost: v, ..m.elem_resist },
            ..m
        },
        Stat::StormResist => StatMods {
            elem_resist: ElementMods { storm: v, ..m.elem_resist },
            ..m
        },
        Stat::ArcaneResist => StatMods {
            elem_resist: ElementMods { arcane: v, ..m.elem_resist },
            ..m
        },
        Stat::NatureResist => StatMods {
            elem_resist: ElementMods { nature: v, ..m.elem_resist },
            ..m
        },
        Stat::NecroResist => StatMods {
            elem_resist: ElementMods { necro: v, ..m.elem_resist },
            ..m
        },
        Stat::ChronoResist => StatMods {
            elem_resist: ElementMods { chrono: v, ..m.elem_resist },
            ..m
        },
        Stat::RadiantResist => StatMods {
            elem_resist: ElementMods { radiant: v, ..m.elem_resist },
            ..m
        },
        Stat::PhysicalResist => StatMods {
            elem_resist: ElementMods { physical: v, ..m.elem_resist },
            ..m
        },
    }
}

/// The stats that a block sets, line by line; all others are zero.
pub open spec fn block(lines: Seq<Line>) -> StatMods
    decreases lines.len(),
{
    if lines.len() == 0 {
        no_mods()
    } else {
        with_stat(block(lines.drop_last()), lines.last().0, thousandths(lines.last().1))
    }
}

/// Reads a block.
pub fn mods(lines: &[Line]) -> (r: StatMods)
    ensures
        r == block(lines@),
{
    let mut m = StatMods::default();
    assert(m == block(lines@.take(0)));
    let mut i: usize = 0;
    while i < lines.len()
        invariant
            i <= lines.len(),
            m == block(lines@.take(i as int)),
        decreases lines.len() - i,
    {
        assert(lines@.take(i + 1).drop_last() =~= lines@.take(i as int));
        m = set_stat(m, lines[i].0, milli(lines[i].1));
        i = i + 1;
    }
    assert(lines@.take(lines@.len() as int) =~= lines@);
    m
}

/// A line sets the stat that it names and no other.
pub proof fn a_line_sets_its_own_stat(m: StatMods, stat: Stat, v: Scalar, r: StatMods)
    requires
        r == with_stat(m, stat, v),
    ensures
        match stat {
            Stat::Unchanged => r == m,
            Stat::Power => r.power == v && r == (StatMods { power: r.power, ..m }),
            Stat::Focus => r.focus == v && r == (StatMods { focus: r.focus, ..m }),
            Stat::Agility => r.agility == v && r == (StatMods { agility: r.agility, ..m }),
            Stat::Vitality => r.vitality == v && r == (StatMods { vitality: r.vitality, ..m }),
            Stat::MaxMana => r.max_mana == v && r == (StatMods { max_mana: r.max_mana, ..m }),
            Stat::MaxHealth => r.max_health == v && r == (StatMods { max_health: r.max_health, ..m }),
            Stat::MaxStamina => r.max_stamina == v && r == (StatMods { max_stamina: r.max_stamina, ..m }),
            Stat::ManaRegen => r.mana_regen == v && r == (StatMods { mana_regen: r.mana_regen, ..m }),
            Stat::HealthRegen => r.health_regen == v && r == (StatMods { health_regen: r.health_regen, ..m }),
            Stat::SpellPowerPct => r.spell_power_pct == v && r == (StatMods { spell_power_pct: r.spell_power_pct, ..m }),
            Stat::CooldownReduction => r.cooldown_reduction == v && r == (StatMods { cooldown_reduction: r.cooldown_reduction, ..m }),
            Stat::CastSpeedPct => r.cast_speed_pct == v && r == (StatMods { cast_speed_pct: r.cast_speed_pct, ..m }),
            Stat::RangePct => r.range_pct == v && r == (StatMods { range_pct: r.range_pct, ..m }),
            Stat::AoeRadiusPct => r.aoe_radius_pct == v && r == (StatMods { aoe_radius_pct: r.aoe_radius_pct, ..m }),
            Stat::ProjectileSpeedPct => r.projectile_speed_pct == v && r == (StatMods { projectile_speed_pct: r.projectile_speed_pct, ..m }),
            Stat::ExtraProjectiles => r.extra_projectiles == v && r == (StatMods { extra_projectiles: r.extra_projectiles, ..m }),
            Stat::Pierce => r.pierce == v && r == (StatMods { pierce: r.pierce, ..m }),
            Stat::AreaDamage => r.area_damage == v && r == (StatMods { area_damage: r.area_damage, ..m }),
            Stat::CritChance => r.crit_chance == v && r == (StatMods { crit_chance: r.crit_chance, ..m }),
            Stat::CritDamage => r.crit_damage == v && r == (StatMods { crit_damage: r.crit_damage, ..m }),
            Stat::Lifesteal => r.lifesteal == v && r == (StatMods { lifesteal: r.lifesteal, ..m }),
            Stat::ManaLeech => r.mana_leech == v && r == (StatMods { mana_leech: r.mana_leech, ..m }),
            Stat::HealthOnKill => r.health_on_kill == v && r == (StatMods { health_on_kill: r.health_on_kill, ..m }),
            Stat::ManaOnKill => r.mana_on_kill == v && r == (StatMods { mana_on_kill: r.mana_on_kill, ..m }),
            Stat::Armor => r.armor == v && r == (StatMods { armor: r.armor, ..m }),
            Stat::ArmorPct => r.armor_pct == v && r == (StatMods { armor_pct: r.armor_pct, ..m }),
            Stat::BlockChance => r.block_chance == v && r == (StatMods { block_chance: r.block_chance, ..m }),
            Stat::Thorns => r.thorns == v && r == (StatMods { thorns: r.thorns, ..m }),
            Stat::Tenacity => r.tenacity == v && r == (StatMods { tenacity: r.tenacity, ..m }),
            Stat::FallDamagePct => r.fall_damage_pct == v && r == (StatMods { fall_damage_pct: r.fall_damage_pct, ..m }),
            Stat::MeleePowerPct => r.melee_power_pct == v && r == (StatMods { melee_power_pct: r.melee_power_pct, ..m }),
            Stat::MeleeRange => r.melee_range == v && r == (StatMods { melee_range: r.melee_range, ..m }),
            Stat::AttackSpeedPct => r.attack_speed_pct == v && r == (StatMods { attack_speed_pct: r.attack_speed_pct, ..m }),
            Stat::KnockbackPct => r.knockback_pct == v && r == (StatMods { knockback_pct: r.knockback_pct, ..m }),
            Stat::MoveSpeed => r.move_speed == v && r == (StatMods { move_speed: r.move_speed, ..m }),
            Stat::JumpCount => r.jump_count == v && r == (StatMods { jump_count: r.jump_count, ..m }),
            Stat::DashCharges => r.dash_charges == v && r == (StatMods { dash_charges: r.dash_charges, ..m }),
            Stat::SummonPowerPct => r.summon_power_pct == v && r == (StatMods { summon_power_pct: r.summon_power_pct, ..m }),
            Stat::SummonCount => r.summon_count == v && r == (StatMods { summon_count: r.summon_count, ..m }),
            Stat::MagicFind => r.magic_find == v && r == (StatMods { magic_find: r.magic_find, ..m }),
            Stat::GoldFind => r.gold_find == v && r == (StatMods { gold_find: r.gold_find, ..m }),
            Stat::XpGainPct => r.xp_gain_pct == v && r == (StatMods { xp_gain_pct: r.xp_gain_pct, ..m }),
            Stat::FireDamage => r.elem_damage.fire == v && r == (StatMods {
                elem_damage: ElementMods { fire: r.elem_damage.fire, ..m.elem_damage },
                ..m
            }),
            Stat::FrostDamage => r.elem_damage.frost == v && r == (StatMods {
                elem_damage: ElementMods { frost: r.elem_damage.frost, ..m.elem_damage },
                ..m
            }),
            Stat::StormDamage => r.elem_damage.storm == v && r == (StatMods {
                elem_damage: ElementMods { storm: r.elem_damage.storm, ..m.elem_damage },
                ..m
            }),
            Stat::ArcaneDamage => r.elem_damage.arcane == v && r == (StatMods {
                elem_damage: ElementMods { arcane: r.elem_damage.arcane, ..m.elem_damage },
                ..m
            }),
            Stat::NatureDamage => r.elem_damage.nature == v && r == (StatMods {
                elem_damage: ElementMods { nature: r.elem_damage.nature, ..m.elem_damage },
                ..m
            }),
            Stat::NecroDamage => r.elem_damage.necro == v && r == (StatMods {
                elem_damage: ElementMods { necro: r.elem_damage.necro, ..m.elem_damage },
                ..m
            }),
            Stat::ChronoDamage => r.elem_damage.chrono == v && r == (StatMods {
                elem_damage: ElementMods { chrono: r.elem_damage.chrono, ..m.elem_damage },
                ..m
            }),
            Stat::RadiantDamage => r.elem_damage.radiant == v && r == (StatMods {
                elem_damage: ElementMods { radiant: r.elem_damage.radiant, ..m.elem_damage },
                ..m
            }),
            Stat::PhysicalDamage => r.elem_damage.physical == v && r == (StatMods {
                elem_damage: ElementMods { physical: r.elem_damage.physical, ..m.elem_damage },
                ..m
            }),
            Stat::FireResist => r.elem_resist.fire == v && r == (StatMods {
                elem_resist: ElementMods { fire: r.elem_resist.fire, ..m.elem_resist },
                ..m
            }),
            Stat::FrostResist => r.elem_resist.frost == v && r == (StatMods {
                elem_resist: ElementMods { frost: r.elem_resist.frost, ..m.elem_resist },
                ..m
            }),
            Stat::StormResist => r.elem_resist.storm == v && r == (StatMods {
                elem_resist: ElementMods { storm: r.elem_resist.storm, ..m.elem_resist },
                ..m
            }),
            Stat::ArcaneResist => r.elem_resist.arcane == v && r == (StatMods {
                elem_resist: ElementMods { arcane: r.elem_resist.arcane, ..m.elem_resist },
                ..m
            }),
            Stat::NatureResist => r.elem_resist.nature == v && r == (StatMods {
                elem_resist: ElementMods { nature: r.elem_resist.nature, ..m.elem_resist },
                ..m
            }),
            Stat::NecroResist => r.elem_resist.necro == v && r == (StatMods {
                elem_resist: ElementMods { necro: r.elem_resist.necro, ..m.elem_resist },
                ..m
            }),
            Stat::ChronoResist => r.elem_resist.chrono == v && r == (StatMods {
                elem_resist: ElementMods { chrono: r.elem_resist.chrono, ..m.elem_resist },
                ..m
            }),
            Stat::RadiantResist => r.elem_resist.radiant == v && r == (StatMods {
                elem_resist: ElementMods { radiant: r.elem_resist.radiant, ..m.elem_resist },
                ..m
            }),
            Stat::PhysicalResist => r.elem_resist.physical == v && r == (StatMods {
                elem_resist: ElementMods { physical: r.elem_resist.physical, ..m.elem_resist },
                ..m
            }),
        },
{
}

/// A block without lines changes nothing, and each further line sets its stat on top of the lines
/// before it.
pub proof fn blocks_are_read_line_by_line(lines: &[Line], r: StatMods, more: &[Line], s: StatMods, i: int)
    requires
        call_ensures(mods, (lines,), r),
        call_ensures(mods, (more,), s),
        more@.len() == lines@.len() + 1,
        more@.drop_last() == lines@,
        0 <= i < r.fields().len(),
    ensures
        lines@.len() == 0 ==> r.fields()[i].bits == 0,
        s == with_stat(r, more@.last().0, decimal(more@.last().1 as int, 3)),
{
}

} // verus!
