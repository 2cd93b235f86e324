//! The gear economy as pure data.
//!
//! [`apply`] grafts a complete gear economy onto a [`ContentPack`]: essences (the upgrade
//! currency), a deep affix pool, gem families that fuse and read differently in weapons and in
//! armor, runewords, permanent enchants, two full sets, and a row of signature items whose
//! effects are felt the instant you equip them. Everything routes through the same closed
//! stat and proc vocabulary, so a designer triples the loot table live.

use crate::content::affix::AffixKind;
use crate::content::gem::GemDef;
use crate::content::growth::{defined, extend, extends, listed_known, row_known};
use crate::content::item::{EquipSlot, Rarity};
use crate::content::keyed::keys;
use crate::content::pack::ContentPack;
use crate::content::sheet::gear::{
    are_affixes, are_enchants, are_essences, are_gems, are_pieces, are_runewords, are_sets,
    are_signatures, enchant, essence, is_gem, is_piece, is_runeword, is_set, piece, read_affix,
    read_gem, read_set, runeword, signature, AffixRow, EnchantRow, EssenceRow, GemRow,
    PieceRow, RunewordRow, SetRow, SignatureRow, NO_BONUS,
};
use crate::content::sheet::proc::{Fx, When, NO_PROC};
use crate::content::sheet::read_all;
use crate::content::sheet::stats::{Stat, NONE};
use crate::content::sheet::status::{are_statuses, status, Ail, StatusRow};
use crate::content::validate::{carries, symbols};
use vstd::prelude::*;

verus! {

/// The statuses that procs lean on: short and synergistic.
pub const STATUSES: [StatusRow; 8] = [
    ("status.gear.ignite", "Ignited", (Ail::Burning, 18_000, ""), 5, 500, 4_000, false, ""),
    ("status.gear.chill", "Chilled", (Ail::Slow, 350, ""), 1, 500, 3_000, false, ""),
    ("status.gear.sunder", "Sundered", (Ail::Vulnerable, 180, ""), 3, 500, 6_000, false, ""),
    (
        "status.gear.bleed",
        "Rent",
        (Ail::DamageOverTime, 22_000, "physical"),
        5,
        500,
        5_000,
        false,
        "",
    ),
    ("status.gear.frenzy", "Frenzied", (Ail::Haste, 300, ""), 1, 500, 4_000, true, ""),
    ("status.gear.berserk", "Berserk", (Ail::Empower, 250, ""), 1, 500, 5_000, true, ""),
    ("status.gear.aegis", "Wardlight", (Ail::Shielded, 120_000, ""), 1, 500, 4_000, true, ""),
    ("status.gear.regen", "Mending", (Ail::Regen, 14_000, ""), 1, 500, 6_000, true, ""),
];

/// Essences, the upgrade currency.
pub const ESSENCES: [EssenceRow; 6] = [
    (
        "item.essence.arcane",
        "Arcane Essence",
        "Forge fuel. Spent to raise an item's upgrade level.",
    ),
    ("item.essence.chaos", "Chaos Shard", "Reforges an item, rerolling all of its random affixes."),
    ("item.essence.binding", "Binding Sigil", "Imprints one affix so the next reforge keeps it."),
    ("item.essence.boring", "Boring Drill", "Bores a new socket into a piece of gear."),
    ("item.essence.solvent", "Aether Solvent", "Pops a socketed gem back out intact."),
    ("item.essence.polish", "Whetstone", "Raises an item's quality toward a flawless 100."),
];

/// Affixes: prefixes shape offence, suffixes utility and defence.
pub const AFFIXES: [AffixRow; 15] = [
    (
        "affix.flaming",
        AffixKind::Prefix,
        "Flaming",
        2,
        (3, ["caster", "weapon", "fire"]),
        (3, [EquipSlot::Staff, EquipSlot::Weapon, EquipSlot::Gloves]),
        [(Stat::FireDamage, 80), NONE, NONE, NONE, NONE, NONE],
        [(Stat::FireDamage, 220), NONE, NONE, NONE, NONE, NONE],
        (
            "Ignite on hit",
            (When::OnHit, 0),
            200,
            1_000,
            (Fx::DebuffTarget, "status.gear.ignite", (4_000, 0), 1, [NONE, NONE]),
        ),
    ),
    (
        "affix.glacial",
        AffixKind::Prefix,
        "Glacial",
        2,
        (3, ["caster", "weapon", "frost"]),
        (0, [EquipSlot::Unworn, EquipSlot::Unworn, EquipSlot::Unworn]),
        [(Stat::FrostDamage, 80), NONE, NONE, NONE, NONE, NONE],
        [(Stat::FrostDamage, 240), NONE, NONE, NONE, NONE, NONE],
        (
            "Chill on hit",
            (When::OnHit, 0),
            300,
            0,
            (Fx::DebuffTarget, "status.gear.chill", (3_000, 0), 1, [NONE, NONE]),
        ),
    ),
    (
        "affix.savage",
        AffixKind::Prefix,
        "Savage",
        3,
        (2, ["weapon", "melee", ""]),
        (1, [EquipSlot::Weapon, EquipSlot::Unworn, EquipSlot::Unworn]),
        [(Stat::MeleePowerPct, 100), (Stat::CritChance, 30), NONE, NONE, NONE, NONE],
        [(Stat::MeleePowerPct, 300), (Stat::CritChance, 80), NONE, NONE, NONE, NONE],
        NO_PROC,
    ),
    (
        "affix.vampiric",
        AffixKind::Prefix,
        "Vampiric",
        4,
        (3, ["weapon", "melee", "universal"]),
        (0, [EquipSlot::Unworn, EquipSlot::Unworn, EquipSlot::Unworn]),
        [(Stat::Lifesteal, 30), NONE, NONE, NONE, NONE, NONE],
        [(Stat::Lifesteal, 90), NONE, NONE, NONE, NONE, NONE],
        NO_PROC,
    ),
    (
        "affix.arcane",
        AffixKind::Prefix,
        "Arcane",
        3,
        (2, ["caster", "armor", ""]),
        (0, [EquipSlot::Unworn, EquipSlot::Unworn, EquipSlot::Unworn]),
        [(Stat::SpellPowerPct, 60), (Stat::MaxMana, 20_000), NONE, NONE, NONE, NONE],
        [(Stat::SpellPowerPct, 180), (Stat::MaxMana, 70_000), NONE, NONE, NONE, NONE],
        NO_PROC,
    ),
    (
        "affix.fleet",
        AffixKind::Prefix,
        "Fleet",
        2,
        (2, ["boots", "armor", ""]),
        (1, [EquipSlot::Boots, EquipSlot::Unworn, EquipSlot::Unworn]),
        [(Stat::MoveSpeed, 500), (Stat::Agility, 4_000), NONE, NONE, NONE, NONE],
        [(Stat::MoveSpeed, 1_800), (Stat::Agility, 12_000), NONE, NONE, NONE, NONE],
        NO_PROC,
    ),
    (
        "affix.titan",
        AffixKind::Prefix,
        "Titanic",
        4,
        (2, ["armor", "universal", ""]),
        (0, [EquipSlot::Unworn, EquipSlot::Unworn, EquipSlot::Unworn]),
        [(Stat::MaxHealth, 60_000), (Stat::Armor, 6_000), NONE, NONE, NONE, NONE],
        [(Stat::MaxHealth, 220_000), (Stat::Armor, 22_000), NONE, NONE, NONE, NONE],
        NO_PROC,
    ),
    (
        "affix.cruel",
        AffixKind::Prefix,
        "Cruel",
        6,
        (2, ["weapon", "caster", ""]),
        (0, [EquipSlot::Unworn, EquipSlot::Unworn, EquipSlot::Unworn]),
        [(Stat::CritDamage, 150), (Stat::CritChance, 40), NONE, NONE, NONE, NONE],
        [(Stat::CritDamage, 550), (Stat::CritChance, 120), NONE, NONE, NONE, NONE],
        NO_PROC,
    ),
    (
        "affix.of_bear",
        AffixKind::Suffix,
        "of the Bear",
        2,
        (1, ["universal", "", ""]),
        (0, [EquipSlot::Unworn, EquipSlot::Unworn, EquipSlot::Unworn]),
        [(Stat::Vitality, 6_000), (Stat::MaxHealth, 40_000), NONE, NONE, NONE, NONE],
        [(Stat::Vitality, 18_000), (Stat::MaxHealth, 130_000), NONE, NONE, NONE, NONE],
        NO_PROC,
    ),
    (
        "affix.of_fox",
        AffixKind::Suffix,
        "of the Fox",
        2,
        (1, ["universal", "", ""]),
        (0, [EquipSlot::Unworn, EquipSlot::Unworn, EquipSlot::Unworn]),
        [(Stat::Agility, 6_000), (Stat::CooldownReduction, 30), NONE, NONE, NONE, NONE],
        [(Stat::Agility, 16_000), (Stat::CooldownReduction, 100), NONE, NONE, NONE, NONE],
        NO_PROC,
    ),
    (
        "affix.of_storms",
        AffixKind::Suffix,
        "of Storms",
        5,
        (3, ["weapon", "caster", "storm"]),
        (0, [EquipSlot::Unworn, EquipSlot::Unworn, EquipSlot::Unworn]),
        [(Stat::StormDamage, 100), NONE, NONE, NONE, NONE, NONE],
        [(Stat::StormDamage, 280), NONE, NONE, NONE, NONE, NONE],
        (
            "Chain lightning on hit",
            (When::OnHit, 0),
            150,
            2_000,
            (Fx::ChainBolt, "storm", (60_000, 0), 3, [NONE, NONE]),
        ),
    ),
    (
        "affix.of_leech",
        AffixKind::Suffix,
        "of Leeching",
        3,
        (2, ["caster", "universal", ""]),
        (0, [EquipSlot::Unworn, EquipSlot::Unworn, EquipSlot::Unworn]),
        [(Stat::ManaLeech, 40), (Stat::ManaOnKill, 8_000), NONE, NONE, NONE, NONE],
        [(Stat::ManaLeech, 120), (Stat::ManaOnKill, 30_000), NONE, NONE, NONE, NONE],
        NO_PROC,
    ),
    (
        "affix.of_warding",
        AffixKind::Suffix,
        "of Warding",
        4,
        (2, ["armor", "universal", ""]),
        (0, [EquipSlot::Unworn, EquipSlot::Unworn, EquipSlot::Unworn]),
        [
            (Stat::ArmorPct, 30),
            (Stat::Tenacity, 50),
            (Stat::FireResist, 40),
            (Stat::FrostResist, 40),
            (Stat::StormResist, 40),
            (Stat::ArcaneResist, 40),
        ],
        [
            (Stat::ArmorPct, 100),
            (Stat::Tenacity, 200),
            (Stat::FireResist, 120),
            (Stat::FrostResist, 120),
            (Stat::StormResist, 120),
            (Stat::ArcaneResist, 120),
        ],
        NO_PROC,
    ),
    (
        "affix.of_fortune",
        AffixKind::Suffix,
        "of Fortune",
        5,
        (1, ["universal", "", ""]),
        (0, [EquipSlot::Unworn, EquipSlot::Unworn, EquipSlot::Unworn]),
        [(Stat::MagicFind, 50), (Stat::GoldFind, 100), (Stat::XpGainPct, 30), NONE, NONE, NONE],
        [(Stat::MagicFind, 250), (Stat::GoldFind, 400), (Stat::XpGainPct, 120), NONE, NONE, NONE],
        NO_PROC,
    ),
    (
        "affix.of_thorns",
        AffixKind::Suffix,
        "of Thorns",
        3,
        (2, ["armor", "universal", ""]),
        (0, [EquipSlot::Unworn, EquipSlot::Unworn, EquipSlot::Unworn]),
        [(Stat::Thorns, 60), NONE, NONE, NONE, NONE, NONE],
        [(Stat::Thorns, 220), NONE, NONE, NONE, NONE, NONE],
        NO_PROC,
    ),
];

/// Gems and runes. Gems fuse into better ones; runes exist for runewords.
pub const GEMS: [GemRow; 12] = [
    (
        "gem.ruby.1",
        "Chipped Ruby",
        1,
        [(Stat::FireDamage, 60), NONE],
        [(Stat::MaxHealth, 40_000), NONE, NONE, NONE, NONE],
        [(Stat::FireResist, 50), NONE],
        "Ruby",
        ("", 0),
        NO_PROC,
    ),
    (
        "gem.ruby.2",
        "Flawed Ruby",
        2,
        [(Stat::FireDamage, 130), NONE],
        [(Stat::MaxHealth, 90_000), NONE, NONE, NONE, NONE],
        [(Stat::FireResist, 100), NONE],
        "Ruby",
        ("gem.ruby.1", 3),
        NO_PROC,
    ),
    (
        "gem.ruby.3",
        "Perfect Ruby",
        3,
        [(Stat::FireDamage, 240), (Stat::CritDamage, 100)],
        [(Stat::MaxHealth, 180_000), NONE, NONE, NONE, NONE],
        [(Stat::FireResist, 180), NONE],
        "Ruby",
        ("gem.ruby.2", 3),
        NO_PROC,
    ),
    (
        "gem.sapphire.1",
        "Chipped Sapphire",
        1,
        [(Stat::FrostDamage, 60), NONE],
        [(Stat::MaxMana, 35_000), NONE, NONE, NONE, NONE],
        [(Stat::ManaRegen, 2_000), NONE],
        "Sapphire",
        ("", 0),
        NO_PROC,
    ),
    (
        "gem.sapphire.3",
        "Perfect Sapphire",
        3,
        [(Stat::FrostDamage, 240), NONE],
        [(Stat::MaxMana, 160_000), NONE, NONE, NONE, NONE],
        [(Stat::ManaRegen, 8_000), (Stat::CooldownReduction, 50)],
        "Sapphire",
        ("gem.sapphire.1", 9),
        NO_PROC,
    ),
    (
        "gem.topaz.3",
        "Perfect Topaz",
        3,
        [(Stat::StormDamage, 240), NONE],
        [(Stat::MagicFind, 100), NONE, NONE, NONE, NONE],
        [(Stat::MagicFind, 180), (Stat::GoldFind, 200)],
        "Topaz",
        ("", 0),
        NO_PROC,
    ),
    (
        "gem.emerald.3",
        "Perfect Emerald",
        3,
        [(Stat::CritChance, 60), (Stat::NatureDamage, 180)],
        [(Stat::HealthRegen, 6_000), (Stat::Tenacity, 80), NONE, NONE, NONE],
        [(Stat::CritChance, 40), NONE],
        "Emerald",
        ("", 0),
        NO_PROC,
    ),
    (
        "gem.diamond.3",
        "Perfect Diamond",
        3,
        [(Stat::RadiantDamage, 200), (Stat::PhysicalDamage, 120)],
        [
            (Stat::FireResist, 60),
            (Stat::FrostResist, 60),
            (Stat::StormResist, 60),
            (Stat::ArcaneResist, 60),
            (Stat::ArmorPct, 40),
        ],
        [(Stat::CritDamage, 200), NONE],
        "Diamond",
        ("", 0),
        (
            "Radiant nova on crit",
            (When::OnCrit, 0),
            250,
            3_000,
            (Fx::Nova, "radiant", (4_000, 90_000), 0, [NONE, NONE]),
        ),
    ),
    (
        "rune.kor",
        "Kor Rune",
        2,
        [NONE, NONE],
        [NONE, NONE, NONE, NONE, NONE],
        [NONE, NONE],
        "Kor",
        ("", 0),
        NO_PROC,
    ),
    (
        "rune.vaal",
        "Vaal Rune",
        3,
        [NONE, NONE],
        [NONE, NONE, NONE, NONE, NONE],
        [NONE, NONE],
        "Vaal",
        ("", 0),
        NO_PROC,
    ),
    (
        "rune.sol",
        "Sol Rune",
        3,
        [NONE, NONE],
        [NONE, NONE, NONE, NONE, NONE],
        [NONE, NONE],
        "Sol",
        ("", 0),
        NO_PROC,
    ),
    (
        "rune.eth",
        "Eth Rune",
        4,
        [NONE, NONE],
        [NONE, NONE, NONE, NONE, NONE],
        [NONE, NONE],
        "Eth",
        ("", 0),
        NO_PROC,
    ),
];

/// Runewords: worthless apart, build-defining together.
pub const RUNEWORDS: [RunewordRow; 2] = [
    (
        "runeword.stormbringer",
        "Stormbringer",
        ["Sol", "Topaz", "Vaal"],
        [EquipSlot::Staff, EquipSlot::Weapon],
        20,
        [
            (Stat::AttackSpeedPct, 200),
            (Stat::StormDamage, 350),
            (Stat::CritChance, 80),
            NONE,
            NONE,
            NONE,
            NONE,
        ],
        [
            (
                "Lightning storm on hit",
                (When::OnHit, 0),
                250,
                1_500,
                (Fx::ChainBolt, "storm", (110_000, 0), 5, [NONE, NONE]),
            ),
        ],
    ),
    (
        "runeword.bulwark",
        "Bulwark",
        ["Eth", "Diamond", "Ruby"],
        [EquipSlot::Robe, EquipSlot::Offhand],
        24,
        [
            (Stat::MaxHealth, 350_000),
            (Stat::ArmorPct, 120),
            (Stat::FireResist, 150),
            (Stat::FrostResist, 150),
            (Stat::StormResist, 150),
            (Stat::ArcaneResist, 150),
            (Stat::Thorns, 200),
        ],
        [
            (
                "Wardlight at low health",
                (When::OnLowHealth, 300),
                1_000,
                12_000,
                (Fx::BuffSelf, "status.gear.aegis", (5_000, 0), 1, [NONE, NONE]),
            ),
        ],
    ),
];

/// Enchants, the final polish layer.
pub const ENCHANTS: [EnchantRow; 2] = [
    (
        "enchant.brilliant",
        "Brilliant",
        (0, [EquipSlot::Unworn, EquipSlot::Unworn]),
        10,
        [(Stat::SpellPowerPct, 80), (Stat::CastSpeedPct, 60)],
        NO_PROC,
        "Brilliant",
    ),
    (
        "enchant.bloodthirsty",
        "Bloodthirsty",
        (2, [EquipSlot::Weapon, EquipSlot::Staff]),
        16,
        [(Stat::Lifesteal, 50), NONE],
        (
            "Frenzy on kill",
            (When::OnKill, 0),
            1_000,
            0,
            (Fx::BuffSelf, "status.gear.frenzy", (4_000, 0), 1, [NONE, NONE]),
        ),
        "Bloodthirsty",
    ),
];

/// Signature items. Each rewrites a verb.
pub const LEGENDARIES: [SignatureRow; 5] = [
    (
        "item.legendary.hungering_edge",
        "The Hungering Edge",
        "A blade that remembers every life it has taken. Each kill makes it hungrier — and it never forgets a duel.",
        EquipSlot::Weapon,
        Rarity::Legendary,
        [
            (Stat::MeleePowerPct, 250),
            (Stat::CritChance, 80),
            (Stat::Lifesteal, 60),
            (Stat::AttackSpeedPct, 100),
            NONE,
            NONE,
            NONE,
        ],
        (
            2,
            [
                (
                    "Devour: +1% damage per recent kill (decays)",
                    (When::OnKill, 0),
                    1_000,
                    0,
                    (Fx::TempStats, "", (12_000, 0), 0, [(Stat::MeleePowerPct, 10), NONE]),
                ),
                (
                    "Rend on hit",
                    (When::OnHit, 0),
                    300,
                    0,
                    (Fx::DebuffTarget, "status.gear.bleed", (5_000, 0), 1, [NONE, NONE]),
                ),
            ],
        ),
        2,
        20,
    ),
    (
        "item.legendary.ember_striders",
        "Ember Striders",
        "You do not walk. You burn a path, and the world hurries to follow.",
        EquipSlot::Boots,
        Rarity::Legendary,
        [
            (Stat::MoveSpeed, 2_200),
            (Stat::Agility, 14_000),
            (Stat::DashCharges, 1_000),
            (Stat::FallDamagePct, 500),
            (Stat::FireResist, 200),
            NONE,
            NONE,
        ],
        (
            2,
            [
                (
                    "Scorched trail while moving",
                    (When::Interval, 500),
                    1_000,
                    0,
                    (Fx::Nova, "fire", (2_500, 24_000), 0, [NONE, NONE]),
                ),
                (
                    "Blink-ignite on dash",
                    (When::OnDash, 0),
                    1_000,
                    0,
                    (Fx::Nova, "fire", (4_000, 80_000), 0, [NONE, NONE]),
                ),
            ],
        ),
        1,
        18,
    ),
    (
        "item.legendary.echo_of_creation",
        "Echo of Creation",
        "The Weave stutters around it, and your magic happens twice.",
        EquipSlot::Staff,
        Rarity::Legendary,
        [
            (Stat::SpellPowerPct, 220),
            (Stat::MaxMana, 140_000),
            (Stat::CastSpeedPct, 120),
            (Stat::ExtraProjectiles, 1_000),
            (Stat::RangePct, 150),
            NONE,
            NONE,
        ],
        (
            1,
            [
                (
                    "Echo: recast the spell on cast",
                    (When::OnCast, 0),
                    200,
                    0,
                    (Fx::BuffSelf, "status.gear.berserk", (2_000, 0), 1, [NONE, NONE]),
                ),
                NO_PROC,
            ],
        ),
        2,
        22,
    ),
    (
        "item.legendary.winterheart_mantle",
        "Winterheart Mantle",
        "A heart of permanent winter. What cannot mend you, armours you instead.",
        EquipSlot::Robe,
        Rarity::Legendary,
        [
            (Stat::MaxHealth, 240_000),
            (Stat::MaxMana, 120_000),
            (Stat::ArmorPct, 80),
            (Stat::FrostResist, 300),
            (Stat::HealthRegen, 10_000),
            NONE,
            NONE,
        ],
        (
            2,
            [
                (
                    "Frost nova when struck",
                    (When::OnTakeDamage, 0),
                    250,
                    2_500,
                    (Fx::Nova, "frost", (5_000, 70_000), 0, [NONE, NONE]),
                ),
                (
                    "Overheal becomes ward",
                    (When::Aura, 0),
                    1_000,
                    0,
                    (Fx::Shield, "", (60_000, 3_000), 0, [NONE, NONE]),
                ),
            ],
        ),
        3,
        20,
    ),
    (
        "item.mythic.signet_of_the_conjunction",
        "Signet of the Conjunction",
        "Forged in the once-an-age Grand Conjunction. Reality treats its bearer as a suggestion.",
        EquipSlot::Ring,
        Rarity::Mythic,
        [
            (Stat::Power, 20_000),
            (Stat::Focus, 20_000),
            (Stat::SpellPowerPct, 180),
            (Stat::CritChance, 100),
            (Stat::CritDamage, 400),
            (Stat::CooldownReduction, 120),
            (Stat::MagicFind, 200),
        ],
        (
            1,
            [
                (
                    "Conjunction: empower on crit",
                    (When::OnCrit, 0),
                    400,
                    4_000,
                    (
                        Fx::TempStats,
                        "",
                        (5_000, 0),
                        0,
                        [(Stat::SpellPowerPct, 250), (Stat::AttackSpeedPct, 200)],
                    ),
                ),
                NO_PROC,
            ],
        ),
        2,
        30,
    ),
];

/// The pieces of the sets.
pub const SET_PIECES: [PieceRow; 9] = [
    (
        "item.set.pyrelord.helm",
        "Pyrelord Crown",
        "Part of the Pyrelord Regalia. The fire remembers its king.",
        EquipSlot::Helm,
        [(Stat::SpellPowerPct, 60), (Stat::MaxMana, 50_000), (Stat::FireDamage, 100)],
        "set.pyrelord",
    ),
    (
        "item.set.pyrelord.robe",
        "Pyrelord Robe",
        "Part of the Pyrelord Regalia. The fire remembers its king.",
        EquipSlot::Robe,
        [(Stat::SpellPowerPct, 60), (Stat::MaxMana, 50_000), (Stat::FireDamage, 100)],
        "set.pyrelord",
    ),
    (
        "item.set.pyrelord.gloves",
        "Pyrelord Gauntlets",
        "Part of the Pyrelord Regalia. The fire remembers its king.",
        EquipSlot::Gloves,
        [(Stat::SpellPowerPct, 60), (Stat::MaxMana, 50_000), (Stat::FireDamage, 100)],
        "set.pyrelord",
    ),
    (
        "item.set.pyrelord.boots",
        "Pyrelord Sandals",
        "Part of the Pyrelord Regalia. The fire remembers its king.",
        EquipSlot::Boots,
        [(Stat::SpellPowerPct, 60), (Stat::MaxMana, 50_000), (Stat::FireDamage, 100)],
        "set.pyrelord",
    ),
    (
        "item.set.pyrelord.staff",
        "Pyrelord Brand",
        "Part of the Pyrelord Regalia. The fire remembers its king.",
        EquipSlot::Staff,
        [(Stat::SpellPowerPct, 60), (Stat::MaxMana, 50_000), (Stat::FireDamage, 100)],
        "set.pyrelord",
    ),
    (
        "item.set.stoneward.helm",
        "Stoneward Helm",
        "Part of the Stoneward Bastion. The mountain does not move.",
        EquipSlot::Helm,
        [(Stat::MaxHealth, 120_000), (Stat::Armor, 12_000), (Stat::Tenacity, 80)],
        "set.stoneward",
    ),
    (
        "item.set.stoneward.robe",
        "Stoneward Cuirass",
        "Part of the Stoneward Bastion. The mountain does not move.",
        EquipSlot::Robe,
        [(Stat::MaxHealth, 120_000), (Stat::Armor, 12_000), (Stat::Tenacity, 80)],
        "set.stoneward",
    ),
    (
        "item.set.stoneward.boots",
        "Stoneward Greaves",
        "Part of the Stoneward Bastion. The mountain does not move.",
        EquipSlot::Boots,
        [(Stat::MaxHealth, 120_000), (Stat::Armor, 12_000), (Stat::Tenacity, 80)],
        "set.stoneward",
    ),
    (
        "item.set.stoneward.weapon",
        "Stoneward Maul",
        "Part of the Stoneward Bastion. The mountain does not move.",
        EquipSlot::Weapon,
        [(Stat::MaxHealth, 120_000), (Stat::Armor, 12_000), (Stat::Tenacity, 80)],
        "set.stoneward",
    ),
];

/// The sets and their bonuses.
pub const SETS: [SetRow; 2] = [
    (
        "set.pyrelord",
        "Pyrelord Regalia",
        (
            5,
            [
                "item.set.pyrelord.helm",
                "item.set.pyrelord.robe",
                "item.set.pyrelord.gloves",
                "item.set.pyrelord.boots",
                "item.set.pyrelord.staff",
            ],
        ),
        (
            3,
            [
                (2, "(2) +20% fire damage", [(Stat::FireDamage, 200), NONE, NONE], (0, [NO_PROC])),
                (
                    3,
                    "(3) +25% spell power, your fire ignites",
                    [(Stat::SpellPowerPct, 250), NONE, NONE],
                    (
                        1,
                        [
                            (
                                "Ignite on every fire hit",
                                (When::OnHit, 0),
                                1_000,
                                0,
                                (
                                    Fx::DebuffTarget,
                                    "status.gear.ignite",
                                    (4_000, 0),
                                    1,
                                    [NONE, NONE],
                                ),
                            ),
                        ],
                    ),
                ),
                (
                    5,
                    "(5) Critical fire spells erupt in a meteor nova",
                    [(Stat::CritChance, 100), (Stat::CritDamage, 500), (Stat::FireDamage, 300)],
                    (
                        1,
                        [
                            (
                                "Meteor on fire crit",
                                (When::OnCrit, 0),
                                1_000,
                                1_000,
                                (Fx::Nova, "fire", (7_000, 240_000), 0, [NONE, NONE]),
                            ),
                        ],
                    ),
                ),
            ],
        ),
    ),
    (
        "set.stoneward",
        "Stoneward Bastion",
        (
            4,
            [
                "item.set.stoneward.helm",
                "item.set.stoneward.robe",
                "item.set.stoneward.boots",
                "item.set.stoneward.weapon",
                "",
            ],
        ),
        (
            2,
            [
                (
                    2,
                    "(2) +12% damage reduction, +30% thorns",
                    [(Stat::ArmorPct, 120), (Stat::Thorns, 300), NONE],
                    (0, [NO_PROC]),
                ),
                (
                    4,
                    "(4) Below 35% health, become an unbreakable bastion",
                    [(Stat::MaxHealth, 400_000), (Stat::BlockChance, 200), NONE],
                    (
                        1,
                        [
                            (
                                "Bastion at low health",
                                (When::OnLowHealth, 350),
                                1_000,
                                15_000,
                                (
                                    Fx::TempStats,
                                    "",
                                    (6_000, 0),
                                    0,
                                    [(Stat::ArmorPct, 400), (Stat::Tenacity, 500)],
                                ),
                            ),
                        ],
                    ),
                ),
                NO_BONUS,
            ],
        ),
    ),
];

/// Adds the proc statuses.
pub fn statuses(pack: &mut ContentPack)
    ensures
        extends(old(pack).statuses@, final(pack).statuses@),
        are_statuses(final(pack).statuses@.skip(old(pack).statuses@.len() as int), STATUSES@),
        *final(pack) == (ContentPack { statuses: final(pack).statuses, ..*old(pack) }),
{
    let rows = STATUSES;
    extend(&mut pack.statuses, read_all(rows.as_slice(), status));
}

/// Adds the essences.
pub fn essences(pack: &mut ContentPack)
    ensures
        extends(old(pack).items@, final(pack).items@),
        are_essences(final(pack).items@.skip(old(pack).items@.len() as int), ESSENCES@),
        *final(pack) == (ContentPack { items: final(pack).items, ..*old(pack) }),
{
    let rows = ESSENCES;
    extend(&mut pack.items, read_all(rows.as_slice(), essence));
}

/// Adds the affixes.
pub fn affixes(pack: &mut ContentPack)
    ensures
        extends(old(pack).affixes@, final(pack).affixes@),
        are_affixes(final(pack).affixes@.skip(old(pack).affixes@.len() as int), AFFIXES@),
        *final(pack) == (ContentPack { affixes: final(pack).affixes, ..*old(pack) }),
{
    let rows = AFFIXES;
    extend(&mut pack.affixes, read_all(rows.as_slice(), read_affix));
}

/// Adds the gems and runes.
pub fn gems(pack: &mut ContentPack)
    ensures
        extends(old(pack).gems@, final(pack).gems@),
        are_gems(final(pack).gems@.skip(old(pack).gems@.len() as int), GEMS@),
        *final(pack) == (ContentPack { gems: final(pack).gems, ..*old(pack) }),
{
    let rows = GEMS;
    extend(&mut pack.gems, read_all(rows.as_slice(), read_gem));
}

/// Adds the runewords.
pub fn runewords(pack: &mut ContentPack)
    ensures
        extends(old(pack).runewords@, final(pack).runewords@),
        are_runewords(final(pack).runewords@.skip(old(pack).runewords@.len() as int), RUNEWORDS@),
        *final(pack) == (ContentPack { runewords: final(pack).runewords, ..*old(pack) }),
{
    let rows = RUNEWORDS;
    extend(&mut pack.runewords, read_all(rows.as_slice(), runeword));
}

/// Adds the enchants.
pub fn enchants(pack: &mut ContentPack)
    ensures
        extends(old(pack).enchants@, final(pack).enchants@),
        are_enchants(final(pack).enchants@.skip(old(pack).enchants@.len() as int), ENCHANTS@),
        *final(pack) == (ContentPack { enchants: final(pack).enchants, ..*old(pack) }),
{
    let rows = ENCHANTS;
    extend(&mut pack.enchants, read_all(rows.as_slice(), enchant));
}

/// Adds the signature items.
pub fn legendaries(pack: &mut ContentPack)
    ensures
        extends(old(pack).items@, final(pack).items@),
        are_signatures(final(pack).items@.skip(old(pack).items@.len() as int), LEGENDARIES@),
        *final(pack) == (ContentPack { items: final(pack).items, ..*old(pack) }),
{
    let rows = LEGENDARIES;
    extend(&mut pack.items, read_all(rows.as_slice(), signature));
}

/// Adds the sets: their pieces to the items, and themselves.
pub fn sets(pack: &mut ContentPack)
    ensures
        extends(old(pack).items@, final(pack).items@),
        are_pieces(final(pack).items@.skip(old(pack).items@.len() as int), SET_PIECES@),
        extends(old(pack).item_sets@, final(pack).item_sets@),
        are_sets(final(pack).item_sets@.skip(old(pack).item_sets@.len() as int), SETS@),
        *final(pack) == (ContentPack {
            items: final(pack).items,
            item_sets: final(pack).item_sets,
            ..*old(pack)
        }),
{
    let pieces = SET_PIECES;
    let rows = SETS;
    extend(&mut pack.items, read_all(pieces.as_slice(), piece));
    extend(&mut pack.item_sets, read_all(rows.as_slice(), read_set));
}

/// The pack `p` is the pack `old` with the gear economy added to it; all else is as it was.
#[verifier::opaque]
pub open spec fn geared(old: ContentPack, p: ContentPack) -> bool {
    let n = old.items@.len() as int;
    &&& extends(old.statuses@, p.statuses@) && are_statuses(
        p.statuses@.skip(old.statuses@.len() as int),
        STATUSES@,
    )
    &&& extends(old.items@, p.items@)
    &&& p.items@.len() == n + 20
    &&& are_essences(p.items@.subrange(n, n + 6), ESSENCES@)
    &&& are_signatures(p.items@.subrange(n + 6, n + 11), LEGENDARIES@)
    &&& are_pieces(p.items@.subrange(n + 11, n + 20), SET_PIECES@)
    &&& extends(old.affixes@, p.affixes@) && are_affixes(
        p.affixes@.skip(old.affixes@.len() as int),
        AFFIXES@,
    )
    &&& extends(old.gems@, p.gems@) && are_gems(p.gems@.skip(old.gems@.len() as int), GEMS@)
    &&& extends(old.runewords@, p.runewords@) && are_runewords(
        p.runewords@.skip(old.runewords@.len() as int),
        RUNEWORDS@,
    )
    &&& extends(old.enchants@, p.enchants@) && are_enchants(
        p.enchants@.skip(old.enchants@.len() as int),
        ENCHANTS@,
    )
    &&& extends(old.item_sets@, p.item_sets@) && are_sets(
        p.item_sets@.skip(old.item_sets@.len() as int),
        SETS@,
    )
    &&& p == (ContentPack {
        statuses: p.statuses,
        items: p.items,
        affixes: p.affixes,
        gems: p.gems,
        runewords: p.runewords,
        enchants: p.enchants,
        item_sets: p.item_sets,
        ..old
    })
}

/// The pieces that the sets are made of.
pub open spec fn names_pieces(known: Set<Seq<char>>) -> bool {
    &&& known.contains("item.set.pyrelord.helm"@)
    &&& known.contains("item.set.pyrelord.robe"@)
    &&& known.contains("item.set.pyrelord.gloves"@)
    &&& known.contains("item.set.pyrelord.boots"@)
    &&& known.contains("item.set.pyrelord.staff"@)
    &&& known.contains("item.set.stoneward.helm"@)
    &&& known.contains("item.set.stoneward.robe"@)
    &&& known.contains("item.set.stoneward.boots"@)
    &&& known.contains("item.set.stoneward.weapon"@)
}

proof fn pieces_named(known: Set<Seq<char>>)
    requires
        forall|j: int| 0 <= j < 9 ==> known.contains((#[trigger] SET_PIECES@[j]).0@),
    ensures
        names_pieces(known),
{
    assert(SET_PIECES@[0].0@ == "item.set.pyrelord.helm"@);
    assert(SET_PIECES@[1].0@ == "item.set.pyrelord.robe"@);
    assert(SET_PIECES@[2].0@ == "item.set.pyrelord.gloves"@);
    assert(SET_PIECES@[3].0@ == "item.set.pyrelord.boots"@);
    assert(SET_PIECES@[4].0@ == "item.set.pyrelord.staff"@);
    assert(SET_PIECES@[5].0@ == "item.set.stoneward.helm"@);
    assert(SET_PIECES@[6].0@ == "item.set.stoneward.robe"@);
    assert(SET_PIECES@[7].0@ == "item.set.stoneward.boots"@);
    assert(SET_PIECES@[8].0@ == "item.set.stoneward.weapon"@);
}

proof fn sets_resolve(known: Set<Seq<char>>)
    requires
        names_pieces(known),
    ensures
        forall|i: int|
            0 <= i < 2 ==> row_known((#[trigger] SETS@[i]).2.0, SETS@[i].2.1@, known),
{
    assert forall|i: int| 0 <= i < 2 implies row_known(
        (#[trigger] SETS@[i]).2.0,
        SETS@[i].2.1@,
        known,
    ) by {
        if i == 0 {
        } else if i == 1 {
        }
    }
}

/// The runes that the runewords are spelt with.
pub open spec fn names_runes(known: Set<Seq<char>>) -> bool {
    &&& known.contains("Sol"@)
    &&& known.contains("Topaz"@)
    &&& known.contains("Vaal"@)
    &&& known.contains("Eth"@)
    &&& known.contains("Diamond"@)
    &&& known.contains("Ruby"@)
}

proof fn runes_named(gems: Seq<GemDef>, n: int)
    requires
        0 <= n <= gems.len(),
        are_gems(gems.skip(n), GEMS@),
    ensures
        names_runes(symbols(gems)),
{
    let new = gems.skip(n);
    reveal_strlit("");
    reveal_strlit("Sol");
    assert("Sol"@.len() != ""@.len());
    reveal_strlit("Topaz");
    assert("Topaz"@.len() != ""@.len());
    reveal_strlit("Vaal");
    assert("Vaal"@.len() != ""@.len());
    reveal_strlit("Eth");
    assert("Eth"@.len() != ""@.len());
    reveal_strlit("Diamond");
    assert("Diamond"@.len() != ""@.len());
    reveal_strlit("Ruby");
    assert("Ruby"@.len() != ""@.len());
    assert(is_gem(new[10], GEMS@[10]));
    assert(GEMS@[10].6@ == "Sol"@);
    rune_carried(gems, n, 10, "Sol"@);
    assert(is_gem(new[5], GEMS@[5]));
    assert(GEMS@[5].6@ == "Topaz"@);
    rune_carried(gems, n, 5, "Topaz"@);
    assert(is_gem(new[9], GEMS@[9]));
    assert(GEMS@[9].6@ == "Vaal"@);
    rune_carried(gems, n, 9, "Vaal"@);
    assert(is_gem(new[11], GEMS@[11]));
    assert(GEMS@[11].6@ == "Eth"@);
    rune_carried(gems, n, 11, "Eth"@);
    assert(is_gem(new[7], GEMS@[7]));
    assert(GEMS@[7].6@ == "Diamond"@);
    rune_carried(gems, n, 7, "Diamond"@);
    assert(is_gem(new[0], GEMS@[0]));
    assert(GEMS@[0].6@ == "Ruby"@);
    rune_carried(gems, n, 0, "Ruby"@);
}

proof fn rune_carried(gems: Seq<GemDef>, n: int, j: int, symbol: Seq<char>)
    requires
        0 <= n,
        0 <= j < gems.skip(n).len(),
        n <= gems.len(),
        carries(gems.skip(n)[j], symbol),
    ensures
        symbols(gems).contains(symbol),
{
    assert(gems.skip(n)[j] == gems[n + j]);
    assert(carries(gems[n + j], symbol));
}

proof fn runewords_resolve(known: Set<Seq<char>>)
    requires
        names_runes(known),
    ensures
        forall|i: int| 0 <= i < 2 ==> row_known(3, (#[trigger] RUNEWORDS@[i]).2@, known),
{
    assert forall|i: int| 0 <= i < 2 implies row_known(
        3,
        (#[trigger] RUNEWORDS@[i]).2@,
        known,
    ) by {
        if i == 0 {
        } else if i == 1 {
        }
    }
}

proof fn new_sets(old: ContentPack, p: ContentPack)
    requires
        geared(old, p),
    ensures
        forall|i: int|
            old.item_sets@.len() <= i < p.item_sets@.len() ==> #[trigger] p.item_set_closed(i),
{
    reveal(geared);
    let n = old.items@.len() as int;
    let pieces = p.items@.subrange(n + 11, n + 20);
    assert forall|j: int| 0 <= j < 9 implies keys(p.items@).contains(
        (#[trigger] SET_PIECES@[j]).0@,
    ) by {
        assert(is_piece(pieces[j], SET_PIECES@[j]));
        assert(p.items@[n + 11 + j] == pieces[j]);
        defined(p.items@, n + 11 + j);
    }
    pieces_named(keys(p.items@));
    sets_resolve(keys(p.items@));
    let m = old.item_sets@.len() as int;
    let new = p.item_sets@.skip(m);
    assert forall|i: int| m <= i < p.item_sets@.len() implies #[trigger] p.item_set_closed(i) by {
        assert(new[i - m] == p.item_sets@[i]);
        assert(is_set(new[i - m], SETS@[i - m]));
        listed_known(
            p.item_sets@[i].pieces@,
            SETS@[i - m].2.0,
            SETS@[i - m].2.1@,
            keys(p.items@),
        );
    }
}

proof fn new_runewords(old: ContentPack, p: ContentPack)
    requires
        geared(old, p),
    ensures
        forall|i: int|
            old.runewords@.len() <= i < p.runewords@.len() ==> #[trigger] p.runeword_closed(i),
{
    reveal(geared);
    runes_named(p.gems@, old.gems@.len() as int);
    runewords_resolve(symbols(p.gems@));
    let m = old.runewords@.len() as int;
    let new = p.runewords@.skip(m);
    assert forall|i: int| m <= i < p.runewords@.len() implies #[trigger] p.runeword_closed(i) by {
        assert(new[i - m] == p.runewords@[i]);
        assert(is_runeword(new[i - m], RUNEWORDS@[i - m]));
        listed_known(p.runewords@[i].sequence@, 3, RUNEWORDS@[i - m].2@, symbols(p.gems@));
    }
}

/// A valid pack stays valid when the gear economy is added to it: every set is made of items
/// and every runeword of runes that come with it.
pub proof fn gear_keeps_packs_valid(old: ContentPack, p: ContentPack)
    requires
        geared(old, p),
        old.problem() is None,
    ensures
        p.problem() is None,
{
    new_sets(old, p);
    new_runewords(old, p);
    assert(p.grown_from(old) && p.additions_closed(old)) by {
        reveal(geared);
    }
    p.growth_keeps_packs_valid(old);
}

/// Every signature item does something you notice: it has a proc of its own.
pub proof fn signature_items_have_procs(i: int)
    requires
        0 <= i < LEGENDARIES@.len(),
    ensures
        LEGENDARIES@[i].6.0 >= 1,
{
    if i == 0 {
    } else if i == 1 {
    } else if i == 2 {
    } else if i == 3 {
    }
}

/// Graft the whole gear economy onto `pack`. Purely additive; a valid pack stays valid.
pub fn apply(pack: &mut ContentPack)
    ensures
        geared(*old(pack), *final(pack)),
        old(pack).problem() is None ==> final(pack).problem() is None,
{
    statuses(pack);
    essences(pack);
    let ghost with_essences = pack.items@;
    affixes(pack);
    gems(pack);
    runewords(pack);
    enchants(pack);
    legendaries(pack);
    let ghost with_signatures = pack.items@;
    sets(pack);
    proof {
        let n = old(pack).items@.len() as int;
        assert(with_essences.len() == n + 6);
        assert(with_signatures.len() == n + 11);
        assert(pack.items@.len() == n + 20);
        assert(pack.items@.subrange(n, n + 6) =~= with_essences.skip(n));
        assert(pack.items@.subrange(n + 6, n + 11) =~= with_signatures.skip(n + 6));
        assert(pack.items@.subrange(n + 11, n + 20) =~= pack.items@.skip(n + 11));
        assert forall|i: int| 0 <= i < n implies #[trigger] pack.items@[i] == old(pack).items@[i] by {
            assert(with_essences[i] == old(pack).items@[i]);
            assert(with_signatures[i] == with_essences[i]);
        }
        assert(geared(*old(pack), *pack)) by {
            reveal(geared);
        }
        if old(pack).problem() is None {
            gear_keeps_packs_valid(*old(pack), *pack);
        }
    }
}

} // verus!
