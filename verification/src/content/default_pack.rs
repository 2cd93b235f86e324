//! The flagship starter content for Cerena.
//!
//! [`default_pack`] builds one coherent, playable game: a dozen spells composed from the
//! [`crate::content::spell::EffectOp`] primitives, the statuses they apply, a full parkour
//! movement kit, equippable gear that grants those spells and modes, abilities wiring spells
//! to inputs, a four-branch tech tree, organic procedural materials and shaders, an organic
//! mystery world, creatures, and missions — and the first expansion on top of it.
//!
//! Every cross-reference is intentional and resolves, so
//! [`crate::content::pack::ContentPack::validate`] passes: abilities point at spells of the
//! pack, tech nodes unlock its items, and every applied status is defined.
//!
//! All ids are stable, dot-style (`spell.fireball`, `item.ember_staff`). Ids are append-only
//! by convention — re-tuning is fine, renaming breaks saved state.

use crate::content::ability::AbilityDef;
use crate::content::added::{
    abilities_added, abilities_closed, casts_known, items_added, mobs_cast, mobs_closed,
    nodes_closed, spells_added, statuses_added,
};
use crate::content::closed::{applied, valid_means_closed};
use crate::content::forge::ForgeConfig;
use crate::content::gamemode::GameModeDef;
use crate::content::expansion;
use crate::content::growth::{keys_grow, row_known};
use crate::content::item::{EquipSlot, ItemDef, Rarity};
use crate::content::keyed::keys;
use crate::content::loot::LootTableDef;
use crate::content::material::{MaterialDef, NoiseKind, ShaderDef, ShaderStage};
use crate::content::mission::MissionDef;
use crate::content::mob::MobDef;
use crate::content::movement::MovementModeDef;
use crate::content::pack::ContentPack;
use crate::content::sheet::ability::{ability, are_abilities, AbilityRow, Bind};
use crate::content::sheet::item::{are_items, item, ItemRow, NO_RECIPE};
use crate::content::sheet::material::{
    are_materials, are_shaders, material, shader, MaterialRow, ShaderRow, NO_LAYER,
};
use crate::content::sheet::mission::{are_missions, mission, Goal, MissionRow, NO_GOAL};
use crate::content::sheet::mob::{are_mobs, mob, MobRow};
use crate::content::sheet::movement::{are_movements, movement, Move, MovementRow};
use crate::content::sheet::read_all;
use crate::content::sheet::spell::{
    afflict, all_three, applies_known, are_spells, area, both, cone, damage, field, heal,
    impulse, is_spell, projectile, ray, repeat, restore_mana, shown, spell, summon, teleport,
    written, Op, SpellRow,
};
use crate::content::sheet::stats::{Stat, NONE};
use crate::content::sheet::status::{are_statuses, status, status_names, Ail, StatusRow};
use crate::content::sheet::tech::{are_nodes, node, Grant, NodeRow, NO_EFFECT};
use crate::content::spawn::SpawnRuleDef;
use crate::content::spell::{EffectOp, Faction, SpellDef};
use crate::content::status::StatusEffectDef;
use crate::content::tech::TechTree;
use crate::content::triggers::TriggerDef;
use crate::content::tuning::TuningConfig;
use crate::content::worldgen::WorldGenParams;
use vstd::prelude::*;

verus! {

/// Spells; their effects follow below.
pub const SPELLS: [SpellRow; 13] = [
    (
        "spell.fireball",
        "Fireball",
        "Hurl a bolt of fire that explodes on impact, scorching everything nearby.",
        "fire",
        (20_000, 400, 1_500),
        false,
        (800, 200, 0, 500),
    ),
    (
        "spell.frostbolt",
        "Frostbolt",
        "A shard of ice that bites deep and locks the target in frost.",
        "frost",
        (16_000, 300, 1_200),
        false,
        (700, 300, 0, 400),
    ),
    (
        "spell.arcane_lance",
        "Arcane Lance",
        "A focused beam of raw arcane force that punches through several foes.",
        "arcane",
        (12_000, 200, 800),
        false,
        (600, 600, 0, 400),
    ),
    (
        "spell.healing_bloom",
        "Healing Bloom",
        "Grow a blossom of life energy that heals allies standing within it.",
        "life",
        (30_000, 600, 6_000),
        false,
        (0, 900, 0, 600),
    ),
    (
        "spell.meteor",
        "Meteor",
        "Call down a blazing rock that craters the ground and flings foes aside.",
        "fire",
        (55_000, 1_400, 10_000),
        false,
        (1_200, 200, 0, 800),
    ),
    (
        "spell.chain_lightning",
        "Chain Lightning",
        "A bolt that leaps between targets in a flurry of crackling strikes.",
        "storm",
        (28_000, 500, 4_000),
        false,
        (700, 400, 0, 500),
    ),
    (
        "spell.void_grasp",
        "Void Grasp",
        "Seize an enemy with tendrils of void, dragging them in and pinning them.",
        "void",
        (22_000, 300, 3_000),
        false,
        (400, 500, 0, 400),
    ),
    (
        "spell.blink_strike",
        "Blink Strike",
        "Flicker through space and erupt into a fan of cutting void energy.",
        "void",
        (26_000, 0, 5_000),
        false,
        (600, 300, 400, 500),
    ),
    (
        "spell.summon_wisp",
        "Summon Wisp",
        "Conjure a luminous wisp that harries your enemies for a time.",
        "arcane",
        (40_000, 1_000, 12_000),
        false,
        (0, 800, 0, 700),
    ),
    (
        "spell.ground_slam",
        "Ground Slam",
        "Smash the earth, sending a shockwave that batters and uproots nearby foes.",
        "earth",
        (18_000, 300, 2_500),
        false,
        (800, 0, 200, 400),
    ),
    (
        "spell.life_siphon",
        "Life Siphon",
        "Channel a draining beam, leeching vitality from your foe into yourself.",
        "void",
        (8_000, 0, 1_000),
        true,
        (500, 500, 0, 500),
    ),
    (
        "spell.storm_field",
        "Storm Field",
        "Summon a churning storm cloud that shocks and hobbles all beneath it.",
        "storm",
        (45_000, 800, 9_000),
        false,
        (600, 500, 0, 700),
    ),
    (
        "spell.mana_draught",
        "Mana Draught",
        "Crack a mana crystal to flood yourself with restorative energy.",
        "arcane",
        (0, 0, 0),
        false,
        (0, 0, 0, 0),
    ),
];

/// Status effects.
pub const STATUSES: [StatusRow; 10] = [
    (
        "status.burning",
        "Burning",
        (Ail::Burning, 12_000, ""),
        3,
        500,
        4_000,
        false,
        "material.lava",
    ),
    ("status.frozen", "Frozen", (Ail::Frozen, 0, ""), 1, 0, 2_000, false, "material.crystal"),
    ("status.slow", "Slowed", (Ail::Slow, 400, ""), 1, 0, 2_000, false, ""),
    ("status.root", "Rooted", (Ail::Root, 0, ""), 1, 0, 2_000, false, "material.void_fog"),
    (
        "status.regen",
        "Regeneration",
        (Ail::Regen, 8_000, ""),
        3,
        1_000,
        6_000,
        true,
        "material.mystic_grass",
    ),
    ("status.empower", "Empowered", (Ail::Empower, 250, ""), 1, 0, 8_000, true, ""),
    (
        "status.shielded",
        "Shielded",
        (Ail::Shielded, 80_000, ""),
        1,
        0,
        6_000,
        true,
        "material.crystal",
    ),
    ("status.vulnerable", "Vulnerable", (Ail::Vulnerable, 200, ""), 1, 0, 5_000, false, ""),
    ("status.haste", "Hastened", (Ail::Haste, 300, ""), 1, 0, 6_000, true, ""),
    (
        "status.invisible",
        "Invisible",
        (Ail::Invisible, 0, ""),
        1,
        0,
        5_000,
        true,
        "material.void_fog",
    ),
];

/// Movement and parkour modes.
pub const MOVEMENT_MODES: [MovementRow; 10] = [
    ("movement.dash", "Dash", (Move::Dash, 0, [6_000, 30_000, 0]), 0, 1_500, 15_000),
    ("movement.double_jump", "Double Jump", (Move::DoubleJump, 1, [7_500, 0, 0]), 0, 0, 10_000),
    ("movement.wall_run", "Wall Run", (Move::WallRun, 0, [2_500, 9_000, 250]), 0, 0, 12_000),
    ("movement.grapple", "Grapple", (Move::Grapple, 0, [30_000, 22_000, 0]), 5_000, 2_000, 0),
    ("movement.glide", "Glide", (Move::Glide, 0, [300, 6_000, 0]), 0, 0, 5_000),
    ("movement.blink", "Blink", (Move::Blink, 0, [10_000, 0, 0]), 15_000, 4_000, 0),
    ("movement.climb", "Climb", (Move::Climb, 0, [4_000, 0, 0]), 0, 0, 8_000),
    (
        "movement.ground_slam",
        "Ground Slam",
        (Move::GroundSlam, 0, [40_000, 4_000, 40_000]),
        0,
        3_000,
        20_000,
    ),
    ("movement.slide", "Slide", (Move::Slide, 0, [14_000, 1_000, 0]), 0, 1_000, 6_000),
    ("movement.sprint", "Sprint", (Move::Sprint, 0, [1_600, 0, 0]), 0, 0, 4_000),
];

/// Items: reagents, gear that grants spells, modes and stats, consumables.
pub const ITEMS: [ItemRow; 14] = [
    (
        "item.crystal_shard",
        "Crystal Shard",
        "A humming sliver of highland crystal. A crafting reagent.",
        Rarity::Uncommon,
        EquipSlot::Unworn,
        [NONE, NONE, NONE, NONE, NONE],
        (0, ["", "", ""]),
        (0, ["", ""]),
        (0, [""]),
        "material.crystal",
        (true, 99),
        "",
        0,
        NO_RECIPE,
    ),
    (
        "item.void_essence",
        "Void Essence",
        "Condensed dark matter wrung from a wraith. A crafting reagent.",
        Rarity::Rare,
        EquipSlot::Unworn,
        [NONE, NONE, NONE, NONE, NONE],
        (0, ["", "", ""]),
        (0, ["", ""]),
        (0, [""]),
        "material.void_fog",
        (true, 99),
        "",
        0,
        NO_RECIPE,
    ),
    (
        "item.ember_staff",
        "Ember Staff",
        "A charred oaken staff that smoulders with captured flame.",
        Rarity::Rare,
        EquipSlot::Staff,
        [(Stat::Power, 12_000), (Stat::SpellPowerPct, 100), NONE, NONE, NONE],
        (1, ["spell.fireball", "", ""]),
        (0, ["", ""]),
        (1, ["ability.fireball"]),
        "material.lava",
        (false, 1),
        "",
        1,
        NO_RECIPE,
    ),
    (
        "item.frost_staff",
        "Frost Staff",
        "Carved from everfrost, its tip never thaws.",
        Rarity::Rare,
        EquipSlot::Staff,
        [(Stat::Power, 10_000), (Stat::Focus, 6_000), NONE, NONE, NONE],
        (1, ["spell.frostbolt", "", ""]),
        (0, ["", ""]),
        (1, ["ability.frostbolt"]),
        "material.crystal",
        (false, 1),
        "",
        1,
        NO_RECIPE,
    ),
    (
        "item.arcane_orb",
        "Arcane Orb",
        "A weightless sphere of latticed light that answers a focused mind.",
        Rarity::Epic,
        EquipSlot::Relic,
        [(Stat::Focus, 14_000), (Stat::MaxMana, 50_000), (Stat::SpellPowerPct, 80), NONE, NONE],
        (1, ["spell.arcane_lance", "", ""]),
        (0, ["", ""]),
        (1, ["ability.arcane_lance"]),
        "material.crystal",
        (false, 1),
        "",
        5,
        NO_RECIPE,
    ),
    (
        "item.void_relic",
        "Void Relic",
        "An aching hollow shard. To hold it is to hear the dark whisper back.",
        Rarity::Legendary,
        EquipSlot::Relic,
        [(Stat::Power, 18_000), (Stat::Focus, 10_000), (Stat::SpellPowerPct, 150), NONE, NONE],
        (2, ["spell.void_grasp", "spell.life_siphon", ""]),
        (0, ["", ""]),
        (1, ["ability.void_grasp"]),
        "material.void_fog",
        (false, 1),
        "",
        12,
        ((2, [("item.void_essence", 5), ("item.crystal_shard", 3)]), "tech.arcana_4"),
    ),
    (
        "item.swiftboots",
        "Swiftboots",
        "Feather-light boots that let you burst across the ground.",
        Rarity::Uncommon,
        EquipSlot::Boots,
        [(Stat::Agility, 8_000), (Stat::MoveSpeed, 1_000), NONE, NONE, NONE],
        (0, ["", "", ""]),
        (1, ["movement.dash", ""]),
        (0, [""]),
        "material.bark",
        (false, 1),
        "",
        1,
        NO_RECIPE,
    ),
    (
        "item.grapple_glove",
        "Grapple Glove",
        "A gauntlet that fires a living tendril to haul you skyward.",
        Rarity::Rare,
        EquipSlot::Trinket,
        [(Stat::Agility, 6_000), NONE, NONE, NONE, NONE],
        (0, ["", "", ""]),
        (1, ["movement.grapple", ""]),
        (0, [""]),
        "material.bark",
        (false, 1),
        "",
        4,
        NO_RECIPE,
    ),
    (
        "item.glider_cloak",
        "Glider Cloak",
        "A membranous cloak that catches the wind and stretches your leaps.",
        Rarity::Rare,
        EquipSlot::Trinket,
        [(Stat::Agility, 5_000), (Stat::MoveSpeed, 500), NONE, NONE, NONE],
        (0, ["", "", ""]),
        (1, ["movement.glide", ""]),
        (0, [""]),
        "material.bark",
        (false, 1),
        "",
        6,
        NO_RECIPE,
    ),
    (
        "item.novice_robe",
        "Novice Robe",
        "Simple woven cloth. Every mage begins here.",
        Rarity::Common,
        EquipSlot::Robe,
        [(Stat::MaxMana, 20_000), (Stat::ManaRegen, 1_000), NONE, NONE, NONE],
        (0, ["", "", ""]),
        (0, ["", ""]),
        (0, [""]),
        "material.mystic_grass",
        (false, 1),
        "",
        1,
        NO_RECIPE,
    ),
    (
        "item.archmage_robe",
        "Archmage Robe",
        "Woven with crystal thread; the cloth of a master spellwright.",
        Rarity::Legendary,
        EquipSlot::Robe,
        [
            (Stat::Focus, 20_000),
            (Stat::MaxMana, 120_000),
            (Stat::ManaRegen, 4_000),
            (Stat::CooldownReduction, 100),
            (Stat::SpellPowerPct, 200),
        ],
        (0, ["", "", ""]),
        (0, ["", ""]),
        (0, [""]),
        "material.crystal",
        (false, 1),
        "",
        15,
        ((2, [("item.crystal_shard", 8), ("item.void_essence", 2)]), "tech.arcana_2"),
    ),
    (
        "item.phoenix_amulet",
        "Phoenix Amulet",
        "A reliquary holding an ember that has never gone out.",
        Rarity::Mythic,
        EquipSlot::Amulet,
        [
            (Stat::Power, 25_000),
            (Stat::Vitality, 15_000),
            (Stat::MaxHealth, 80_000),
            (Stat::SpellPowerPct, 180),
            NONE,
        ],
        (1, ["spell.meteor", "", ""]),
        (0, ["", ""]),
        (1, ["ability.meteor"]),
        "material.lava",
        (false, 1),
        "",
        20,
        NO_RECIPE,
    ),
    (
        "item.storm_ring",
        "Storm Ring",
        "A band of restless silver that crackles when danger nears.",
        Rarity::Epic,
        EquipSlot::Ring,
        [(Stat::Power, 10_000), (Stat::Focus, 8_000), (Stat::CooldownReduction, 80), NONE, NONE],
        (1, ["spell.chain_lightning", "", ""]),
        (0, ["", ""]),
        (1, ["ability.chain_lightning"]),
        "material.crystal",
        (false, 1),
        "",
        8,
        NO_RECIPE,
    ),
    (
        "item.mana_crystal",
        "Mana Crystal",
        "Shatter it to drink down a surge of raw mana.",
        Rarity::Common,
        EquipSlot::Consumable,
        [NONE, NONE, NONE, NONE, NONE],
        (0, ["", "", ""]),
        (0, ["", ""]),
        (0, [""]),
        "material.crystal",
        (true, 20),
        "spell.mana_draught",
        1,
        ((1, [("item.crystal_shard", 2), ("", 0)]), ""),
    ),
];

/// Abilities: spells wired to inputs.
pub const ABILITIES: [AbilityRow; 12] = [
    ("ability.fireball", "Fireball", "spell.fireball", (Bind::Primary, 0)),
    ("ability.frostbolt", "Frostbolt", "spell.frostbolt", (Bind::Primary, 0)),
    ("ability.arcane_lance", "Arcane Lance", "spell.arcane_lance", (Bind::Secondary, 0)),
    ("ability.void_grasp", "Void Grasp", "spell.void_grasp", (Bind::Secondary, 0)),
    ("ability.healing_bloom", "Healing Bloom", "spell.healing_bloom", (Bind::Slot, 1)),
    ("ability.meteor", "Meteor", "spell.meteor", (Bind::Slot, 2)),
    ("ability.chain_lightning", "Chain Lightning", "spell.chain_lightning", (Bind::Slot, 3)),
    ("ability.blink_strike", "Blink Strike", "spell.blink_strike", (Bind::Slot, 4)),
    ("ability.summon_wisp", "Summon Wisp", "spell.summon_wisp", (Bind::Slot, 5)),
    ("ability.ground_slam", "Ground Slam", "spell.ground_slam", (Bind::Slot, 6)),
    ("ability.life_siphon", "Life Siphon", "spell.life_siphon", (Bind::Slot, 7)),
    ("ability.storm_field", "Storm Field", "spell.storm_field", (Bind::Slot, 8)),
];

/// Tech nodes, branch by branch in chained tiers.
pub const TECH_NODES: [NodeRow; 16] = [
    (
        "tech.pyro_1",
        "Spark",
        "Awaken the flame within; learn to hurl fire.",
        "Pyromancy",
        0,
        1,
        (0, [""]),
        (1, [(Grant::Ability, "ability.fireball", (0, 0), [NONE, NONE]), NO_EFFECT, NO_EFFECT]),
        (1, ["item.ember_staff"]),
    ),
    (
        "tech.pyro_2",
        "Kindling",
        "Your flames burn hotter and your spellcraft deepens.",
        "Pyromancy",
        1,
        2,
        (1, ["tech.pyro_1"]),
        (
            2,
            [
                (Grant::Stats, "", (0, 0), [(Stat::Power, 8_000), NONE]),
                (Grant::Budget, "", (2, 1), [NONE, NONE]),
                NO_EFFECT,
            ],
        ),
        (0, [""]),
    ),
    (
        "tech.pyro_3",
        "Conflagration",
        "Call fire from the sky itself.",
        "Pyromancy",
        2,
        3,
        (1, ["tech.pyro_2"]),
        (1, [(Grant::Ability, "ability.meteor", (0, 0), [NONE, NONE]), NO_EFFECT, NO_EFFECT]),
        (1, ["item.phoenix_amulet"]),
    ),
    (
        "tech.pyro_4",
        "Eternal Flame",
        "Mastery of fire; its power becomes part of you.",
        "Pyromancy",
        3,
        4,
        (1, ["tech.pyro_3"]),
        (
            1,
            [
                (Grant::Stats, "", (0, 0), [(Stat::Power, 15_000), (Stat::SpellPowerPct, 100)]),
                NO_EFFECT,
                NO_EFFECT,
            ],
        ),
        (0, [""]),
    ),
    (
        "tech.cryo_1",
        "First Frost",
        "Draw the cold into your hands.",
        "Cryomancy",
        0,
        1,
        (0, [""]),
        (1, [(Grant::Ability, "ability.frostbolt", (0, 0), [NONE, NONE]), NO_EFFECT, NO_EFFECT]),
        (1, ["item.frost_staff"]),
    ),
    (
        "tech.cryo_2",
        "Permafrost",
        "Your ice clings longer and your focus sharpens.",
        "Cryomancy",
        1,
        2,
        (1, ["tech.cryo_1"]),
        (1, [(Grant::Stats, "", (0, 0), [(Stat::Focus, 8_000), NONE]), NO_EFFECT, NO_EFFECT]),
        (0, [""]),
    ),
    (
        "tech.cryo_3",
        "Glacier Mind",
        "Cold clarity lets you weave intricate spells.",
        "Cryomancy",
        2,
        3,
        (1, ["tech.cryo_2"]),
        (1, [(Grant::Budget, "", (3, 1), [NONE, NONE]), NO_EFFECT, NO_EFFECT]),
        (0, [""]),
    ),
    (
        "tech.cryo_4",
        "Absolute Zero",
        "Bind a foe in stillness at the touch of your will.",
        "Cryomancy",
        3,
        4,
        (1, ["tech.cryo_3"]),
        (1, [(Grant::Spell, "spell.storm_field", (0, 0), [NONE, NONE]), NO_EFFECT, NO_EFFECT]),
        (0, [""]),
    ),
    (
        "tech.arcana_1",
        "Attunement",
        "Learn to shape raw arcane force into a lance.",
        "Arcana",
        0,
        1,
        (0, [""]),
        (1, [(Grant::Ability, "ability.arcane_lance", (0, 0), [NONE, NONE]), NO_EFFECT, NO_EFFECT]),
        (1, ["item.arcane_orb"]),
    ),
    (
        "tech.arcana_2",
        "Weaving",
        "Unlock the loom of greater spellcraft.",
        "Arcana",
        1,
        2,
        (1, ["tech.arcana_1"]),
        (
            2,
            [
                (Grant::Budget, "", (4, 2), [NONE, NONE]),
                (Grant::Recipe, "item.archmage_robe", (0, 0), [NONE, NONE]),
                NO_EFFECT,
            ],
        ),
        (1, ["item.archmage_robe"]),
    ),
    (
        "tech.arcana_3",
        "Conduction",
        "Make your bolts leap between many foes.",
        "Arcana",
        2,
        3,
        (1, ["tech.arcana_2"]),
        (
            1,
            [
                (Grant::Ability, "ability.chain_lightning", (0, 0), [NONE, NONE]),
                NO_EFFECT,
                NO_EFFECT,
            ],
        ),
        (1, ["item.storm_ring"]),
    ),
    (
        "tech.arcana_4",
        "Voidcraft",
        "Reach into the hollow places between things.",
        "Arcana",
        3,
        4,
        (1, ["tech.arcana_3"]),
        (
            2,
            [
                (Grant::Ability, "ability.void_grasp", (0, 0), [NONE, NONE]),
                (Grant::Recipe, "item.void_relic", (0, 0), [NONE, NONE]),
                NO_EFFECT,
            ],
        ),
        (1, ["item.void_relic"]),
    ),
    (
        "tech.mobility_1",
        "Fleet Step",
        "Burst forward in a sudden dash.",
        "Mobility",
        0,
        1,
        (0, [""]),
        (1, [(Grant::Movement, "movement.dash", (0, 0), [NONE, NONE]), NO_EFFECT, NO_EFFECT]),
        (1, ["item.swiftboots"]),
    ),
    (
        "tech.mobility_2",
        "Grappler",
        "Fling a tendril and haul yourself across gaps.",
        "Mobility",
        1,
        2,
        (1, ["tech.mobility_1"]),
        (1, [(Grant::Movement, "movement.grapple", (0, 0), [NONE, NONE]), NO_EFFECT, NO_EFFECT]),
        (1, ["item.grapple_glove"]),
    ),
    (
        "tech.mobility_3",
        "Windrider",
        "Catch the air and glide on outstretched cloth.",
        "Mobility",
        2,
        3,
        (1, ["tech.mobility_2"]),
        (1, [(Grant::Movement, "movement.glide", (0, 0), [NONE, NONE]), NO_EFFECT, NO_EFFECT]),
        (1, ["item.glider_cloak"]),
    ),
    (
        "tech.mobility_4",
        "Phase Walker",
        "Step through space in the blink of an eye.",
        "Mobility",
        3,
        4,
        (1, ["tech.mobility_3"]),
        (
            2,
            [
                (Grant::Movement, "movement.blink", (0, 0), [NONE, NONE]),
                (Grant::Stats, "", (0, 0), [(Stat::Agility, 12_000), (Stat::MoveSpeed, 1_000)]),
                NO_EFFECT,
            ],
        ),
        (0, [""]),
    ),
];

/// Organic, noise-driven surfaces.
pub const MATERIALS: [MaterialRow; 6] = [
    (
        "material.organic_stone",
        "Organic Stone",
        (
            2,
            [
                (NoiseKind::Fbm, 3_000, 1_000, 5, 2_000, 500, 400, 11),
                (NoiseKind::Worley, 6_000, 400, 2, 2_000, 500, 200, 12),
            ],
        ),
        [
            (0, [180, 170, 160, 1_000]),
            (500, [340, 320, 300, 1_000]),
            (1_000, [550, 530, 500, 1_000]),
        ],
        (900, 0, 0),
        [0, 0, 0],
        500,
        300,
        "shader.surface_triplanar",
    ),
    (
        "material.mystic_grass",
        "Mystic Grass",
        (
            2,
            [
                (NoiseKind::Fbm, 8_000, 1_000, 4, 2_000, 500, 600, 21),
                (NoiseKind::Flow, 4_000, 300, 2, 2_000, 500, 500, 22),
            ],
        ),
        [(0, [60, 180, 70, 1_000]), (600, [160, 420, 160, 1_000]), (1_000, [420, 700, 350, 1_000])],
        (800, 0, 150),
        [200, 600, 300],
        1_000,
        150,
        "shader.surface_triplanar",
    ),
    (
        "material.crystal",
        "Crystal",
        (1, [(NoiseKind::Ridged, 5_000, 1_000, 5, 2_200, 550, 100, 31), NO_LAYER]),
        [
            (0, [200, 250, 450, 1_000]),
            (500, [400, 500, 850, 1_000]),
            (1_000, [700, 850, 1_000, 1_000]),
        ],
        (150, 100, 400),
        [400, 550, 950],
        800,
        500,
        "shader.surface_triplanar",
    ),
    (
        "material.lava",
        "Lava",
        (1, [(NoiseKind::Flow, 2_500, 1_000, 4, 2_000, 550, 700, 41), NO_LAYER]),
        [(0, [150, 20, 0, 1_000]), (600, [900, 250, 20, 1_000]), (1_000, [1_000, 850, 300, 1_000])],
        (600, 0, 2_500),
        [1_000, 400, 100],
        600,
        400,
        "shader.surface_triplanar",
    ),
    (
        "material.void_fog",
        "Void Fog",
        (1, [(NoiseKind::DomainWarp, 1_500, 1_000, 5, 2_000, 500, 1_200, 51), NO_LAYER]),
        [(0, [20, 0, 50, 1_000]), (500, [100, 40, 180, 1_000]), (1_000, [280, 120, 400, 1_000])],
        (1_000, 0, 600),
        [300, 100, 500],
        1_200,
        100,
        "shader.surface_triplanar",
    ),
    (
        "material.bark",
        "Bark",
        (
            2,
            [
                (NoiseKind::Flow, 10_000, 1_000, 4, 2_000, 500, 300, 61),
                (NoiseKind::Fbm, 20_000, 1_000, 3, 2_000, 500, 200, 62),
            ],
        ),
        [(0, [120, 80, 40, 1_000]), (600, [300, 200, 100, 1_000]), (1_000, [500, 380, 220, 1_000])],
        (950, 0, 0),
        [0, 0, 0],
        700,
        250,
        "shader.surface_triplanar",
    ),
];

/// Shaders, recompiled on every content swap.
pub const SHADERS: [ShaderRow; 4] = [
    (
        "shader.surface_triplanar",
        "Triplanar Surface",
        ShaderStage::Surface,
        (2, [("ramp_scale", 1_000), ("light_wrap", 300)]),
        "
// Triplanar surface shader: projects fbm-driven colour on world geometry and
// applies wrapped Lambert lighting. Hot-recompiled by arena-client.
struct Surf {
    world_pos: vec3<f32>,
    normal: vec3<f32>,
};

fn hash3(p: vec3<f32>) -> f32 {
    return fract(sin(dot(p, vec3<f32>(12.9898, 78.233, 37.719))) * 43758.5453);
}

fn fbm(p: vec3<f32>) -> f32 {
    var f: f32 = 0.0;
    var amp: f32 = 0.5;
    var pp: vec3<f32> = p;
    for (var i: i32 = 0; i < 4; i = i + 1) {
        f = f + amp * hash3(floor(pp));
        pp = pp * 2.0;
        amp = amp * 0.5;
    }
    return f;
}

fn shade(s: Surf, light_dir: vec3<f32>, base: vec3<f32>, light_wrap: f32) -> vec3<f32> {
    let n = normalize(s.normal);
    let ndl = clamp((dot(n, normalize(light_dir)) + light_wrap) / (1.0 + light_wrap), 0.0, 1.0);
    let detail = fbm(s.world_pos * 0.5);
    return base * (0.25 + 0.75 * ndl) * (0.85 + 0.15 * detail);
}
",
    ),
    (
        "shader.sky",
        "Sky Dome",
        ShaderStage::Sky,
        (1, [("turbidity", 2_000), ("", 0)]),
        "
// Sky dome: a vertical gradient from horizon to zenith with a soft sun disc.
fn sky_color(dir: vec3<f32>, sun_dir: vec3<f32>) -> vec3<f32> {
    let t = clamp(dir.y * 0.5 + 0.5, 0.0, 1.0);
    let horizon = vec3<f32>(0.55, 0.62, 0.78);
    let zenith = vec3<f32>(0.12, 0.22, 0.45);
    let base = mix(horizon, zenith, t);
    let sun = pow(clamp(dot(normalize(dir), normalize(sun_dir)), 0.0, 1.0), 256.0);
    return base + vec3<f32>(1.0, 0.9, 0.7) * sun;
}
",
    ),
    (
        "shader.particle",
        "Soft Particle",
        ShaderStage::Particle,
        (1, [("softness", 500), ("", 0)]),
        "
// Soft additive particle: radial falloff times tint times life-fade.
fn particle_rgba(uv: vec2<f32>, tint: vec3<f32>, life: f32) -> vec4<f32> {
    let d = length(uv - vec2<f32>(0.5, 0.5)) * 2.0;
    let alpha = clamp(1.0 - d, 0.0, 1.0);
    let fade = clamp(life, 0.0, 1.0);
    return vec4<f32>(tint * alpha, alpha * alpha * fade);
}
",
    ),
    (
        "shader.water",
        "Water",
        ShaderStage::Water,
        (2, [("wave_speed", 400), ("wave_scale", 1_500)]),
        "
// Animated water: two scrolling sine wave sets perturb the normal; Fresnel tints.
fn water_normal(pos: vec2<f32>, time: f32, scale: f32, speed: f32) -> vec3<f32> {
    let w1 = sin((pos.x + time * speed) * scale) * 0.5;
    let w2 = sin((pos.y - time * speed * 0.8) * scale * 1.3) * 0.5;
    return normalize(vec3<f32>(w1, 1.0, w2));
}

fn water_color(view: vec3<f32>, n: vec3<f32>) -> vec3<f32> {
    let fresnel = pow(1.0 - clamp(dot(normalize(view), n), 0.0, 1.0), 3.0);
    let deep = vec3<f32>(0.02, 0.12, 0.2);
    let sky = vec3<f32>(0.5, 0.7, 0.9);
    return mix(deep, sky, fresnel);
}
",
    ),
];

/// Creatures and summons.
pub const MOBS: [MobRow; 4] = [
    (
        "mob.wisp",
        "Wisp",
        40_000,
        6_000,
        (1, ["ability.arcane_lance", "", ""]),
        10,
        (1, [("item.mana_crystal", 250), ("", 0), ("", 0)]),
        "material.crystal",
        500,
        false,
        0x7001,
    ),
    (
        "mob.forest_guardian",
        "Forest Guardian",
        220_000,
        3_500,
        (1, ["ability.ground_slam", "", ""]),
        60,
        (2, [("item.crystal_shard", 500), ("item.novice_robe", 100), ("", 0)]),
        "material.bark",
        2_200,
        false,
        0x7002,
    ),
    (
        "mob.void_wraith",
        "Void Wraith",
        130_000,
        5_500,
        (2, ["ability.void_grasp", "ability.life_siphon", ""]),
        90,
        (1, [("item.void_essence", 600), ("", 0), ("", 0)]),
        "material.void_fog",
        1_600,
        true,
        0x7003,
    ),
    (
        "mob.crystal_golem",
        "Crystal Golem",
        400_000,
        2_800,
        (2, ["ability.chain_lightning", "ability.ground_slam", ""]),
        150,
        (2, [("item.crystal_shard", 900), ("item.storm_ring", 50), ("", 0)]),
        "material.crystal",
        3_000,
        true,
        0x7004,
    ),
];

/// Missions.
pub const MISSIONS: [MissionRow; 4] = [
    (
        "mission.first_flame",
        "First Flame",
        "Prove your spark: scatter the wisps of the lowlands with fire.",
        (
            2,
            [
                (Goal::Kill, "mob.wisp", 5, 0, [0, 0, 0]),
                (Goal::CastSpell, "spell.fireball", 10, 0, [0, 0, 0]),
                NO_GOAL,
            ],
        ),
        100,
        (1, [("item.ember_staff", 1)]),
        2,
        1,
        false,
    ),
    (
        "mission.gather_crystals",
        "Shards of the Highlands",
        "Harvest crystal shards from the golems and formations of the heights.",
        (1, [(Goal::Collect, "item.crystal_shard", 10, 0, [0, 0, 0]), NO_GOAL, NO_GOAL]),
        120,
        (1, [("item.mana_crystal", 3)]),
        2,
        3,
        true,
    ),
    (
        "mission.reach_monolith",
        "The Sunken Monolith",
        "Travel to the monolith said to rise from the drowned lowlands.",
        (
            2,
            [
                (Goal::ReachPoint, "", 0, 20_000, [512_000, 30_000, -480_000]),
                (Goal::Explore, "", 2, 0, [0, 0, 0]),
                NO_GOAL,
            ],
        ),
        200,
        (1, [("item.arcane_orb", 1)]),
        3,
        5,
        false,
    ),
    (
        "mission.survive_hollows",
        "Into the Hollows",
        "Descend into the void hollows and endure the wraiths' assault.",
        (
            2,
            [
                (Goal::Survive, "", 0, 180_000, [0, 0, 0]),
                (Goal::Kill, "mob.void_wraith", 3, 0, [0, 0, 0]),
                NO_GOAL,
            ],
        ),
        300,
        (1, [("item.void_essence", 5)]),
        4,
        10,
        true,
    ),
];

/// The statuses that spells may apply.
pub open spec fn known_statuses() -> Set<Seq<char>> {
    status_names(STATUSES@)
}

pub open spec fn fireball_op() -> Op {
    Op::projectile(
        42_000,
        1_500,
        400,
        4_000,
        0,
        Op::area(
            4_000,
            Faction::Enemies,
            500,
            Op::both(Op::damage(60_000, "fire"@), Op::afflict("status.burning"@, 4_000, 1)),
        ),
    )
}

pub open spec fn frostbolt_op() -> Op {
    Op::projectile(
        50_000,
        0,
        300,
        3_000,
        0,
        Op::both(Op::damage(45_000, "frost"@), Op::afflict("status.frozen"@, 2_000, 1)),
    )
}

pub open spec fn arcane_lance_op() -> Op {
    Op::ray(50_000, 3, Op::damage(40_000, "arcane"@))
}

pub open spec fn healing_bloom_op() -> Op {
    Op::field(5_000, 6_000, 1_000, Faction::Allies, Op::heal(15_000))
}

pub open spec fn meteor_op() -> Op {
    Op::projectile(
        26_000,
        9_000,
        800,
        6_000,
        0,
        Op::area(
            6_000,
            Faction::Enemies,
            400,
            Op::all_three(
                Op::damage(120_000, "fire"@),
                Op::afflict("status.vulnerable"@, 5_000, 1),
                Op::impulse(18_000, 700),
            ),
        ),
    )
}

pub open spec fn chain_lightning_op() -> Op {
    Op::ray(35_000, 0, Op::repeat(5, 80, Op::damage(30_000, "storm"@)))
}

pub open spec fn void_grasp_op() -> Op {
    Op::ray(30_000, 0, Op::both(Op::impulse(-22_000, 200), Op::afflict("status.root"@, 2_000, 1)))
}

pub open spec fn blink_strike_op() -> Op {
    Op::both(
        Op::teleport(8_000, false),
        Op::cone(5_000, 600, Faction::Enemies, Op::damage(55_000, "void"@)),
    )
}

pub open spec fn summon_wisp_op() -> Op {
    Op::summon("mob.wisp"@, 1, 30_000)
}

pub open spec fn ground_slam_op() -> Op {
    Op::area(
        5_000,
        Faction::Enemies,
        400,
        Op::both(Op::damage(50_000, "earth"@), Op::impulse(15_000, 800)),
    )
}

pub open spec fn life_siphon_op() -> Op {
    Op::ray(20_000, 0, Op::both(Op::damage(20_000, "void"@), Op::heal(12_000)))
}

pub open spec fn storm_field_op() -> Op {
    Op::field(
        6_000,
        5_000,
        500,
        Faction::Enemies,
        Op::both(Op::damage(10_000, "storm"@), Op::afflict("status.slow"@, 1_000, 1)),
    )
}

pub open spec fn mana_draught_op() -> Op {
    Op::restore_mana(80_000)
}

/// The effects of the spell at `i` of the table.
#[verifier::opaque]
pub open spec fn spell_op(i: int) -> Op {
    if i == 0 {
        fireball_op()
    } else if i == 1 {
        frostbolt_op()
    } else if i == 2 {
        arcane_lance_op()
    } else if i == 3 {
        healing_bloom_op()
    } else if i == 4 {
        meteor_op()
    } else if i == 5 {
        chain_lightning_op()
    } else if i == 6 {
        void_grasp_op()
    } else if i == 7 {
        blink_strike_op()
    } else if i == 8 {
        summon_wisp_op()
    } else if i == 9 {
        ground_slam_op()
    } else if i == 10 {
        life_siphon_op()
    } else if i == 11 {
        storm_field_op()
    } else if i == 12 {
        mana_draught_op()
    } else {
        Op::Noop
    }
}

fn fireball() -> (d: SpellDef)
    ensures
        written(d, SPELLS@[0], spell_op(0), known_statuses()),
{
    let root = projectile(
        42_000,
        1_500,
        400,
        4_000,
        0,
        area(
            4_000,
            Faction::Enemies,
            500,
            both(damage(60_000, "fire"), afflict("status.burning", 4_000, 1)),
        ),
    );
    proof {
        assert(applied(root) =~= set!["status.burning"@]);
        assert(STATUSES@[0].0@ == "status.burning"@);
        reveal(written);
        reveal(spell_op);
    }
    let rows = SPELLS;
    spell(rows[0], root)
}

fn frostbolt() -> (d: SpellDef)
    ensures
        written(d, SPELLS@[1], spell_op(1), known_statuses()),
{
    let root = projectile(
        50_000,
        0,
        300,
        3_000,
        0,
        both(damage(45_000, "frost"), afflict("status.frozen", 2_000, 1)),
    );
    proof {
        assert(applied(root) =~= set!["status.frozen"@]);
        assert(STATUSES@[1].0@ == "status.frozen"@);
        reveal(written);
        reveal(spell_op);
    }
    let rows = SPELLS;
    spell(rows[1], root)
}

fn arcane_lance() -> (d: SpellDef)
    ensures
        written(d, SPELLS@[2], spell_op(2), known_statuses()),
{
    let root = ray(50_000, 3, damage(40_000, "arcane"));
    proof {
        assert(applied(root) =~= Set::<Seq<char>>::empty());
        reveal(written);
        reveal(spell_op);
    }
    let rows = SPELLS;
    spell(rows[2], root)
}

fn healing_bloom() -> (d: SpellDef)
    ensures
        written(d, SPELLS@[3], spell_op(3), known_statuses()),
{
    let root = field(5_000, 6_000, 1_000, Faction::Allies, heal(15_000));
    proof {
        assert(applied(root) =~= Set::<Seq<char>>::empty());
        reveal(written);
        reveal(spell_op);
    }
    let rows = SPELLS;
    spell(rows[3], root)
}

fn meteor() -> (d: SpellDef)
    ensures
        written(d, SPELLS@[4], spell_op(4), known_statuses()),
{
    let root = projectile(
        26_000,
        9_000,
        800,
        6_000,
        0,
        area(
            6_000,
            Faction::Enemies,
            400,
            all_three(
                damage(120_000, "fire"),
                afflict("status.vulnerable", 5_000, 1),
                impulse(18_000, 700),
            ),
        ),
    );
    proof {
        assert(applied(root) =~= set!["status.vulnerable"@]);
        assert(STATUSES@[7].0@ == "status.vulnerable"@);
        reveal(written);
        reveal(spell_op);
    }
    let rows = SPELLS;
    spell(rows[4], root)
}

fn chain_lightning() -> (d: SpellDef)
    ensures
        written(d, SPELLS@[5], spell_op(5), known_statuses()),
{
    let root = ray(35_000, 0, repeat(5, 80, damage(30_000, "storm")));
    proof {
        assert(applied(root) =~= Set::<Seq<char>>::empty());
        reveal(written);
        reveal(spell_op);
    }
    let rows = SPELLS;
    spell(rows[5], root)
}

fn void_grasp() -> (d: SpellDef)
    ensures
        written(d, SPELLS@[6], spell_op(6), known_statuses()),
{
    let root = ray(30_000, 0, both(impulse(-22_000, 200), afflict("status.root", 2_000, 1)));
    proof {
        assert(applied(root) =~= set!["status.root"@]);
        assert(STATUSES@[3].0@ == "status.root"@);
        reveal(written);
        reveal(spell_op);
    }
    let rows = SPELLS;
    spell(rows[6], root)
}

fn blink_strike() -> (d: SpellDef)
    ensures
        written(d, SPELLS@[7], spell_op(7), known_statuses()),
{
    let root = both(teleport(8_000, false), cone(5_000, 600, Faction::Enemies, damage(55_000, "void")));
    proof {
        assert(applied(root) =~= Set::<Seq<char>>::empty());
        reveal(written);
        reveal(spell_op);
    }
    let rows = SPELLS;
    spell(rows[7], root)
}

fn summon_wisp() -> (d: SpellDef)
    ensures
        written(d, SPELLS@[8], spell_op(8), known_statuses()),
{
    let root = summon("mob.wisp", 1, 30_000);
    proof {
        assert(applied(root) =~= Set::<Seq<char>>::empty());
        reveal(written);
        reveal(spell_op);
    }
    let rows = SPELLS;
    spell(rows[8], root)
}

fn ground_slam() -> (d: SpellDef)
    ensures
        written(d, SPELLS@[9], spell_op(9), known_statuses()),
{
    let root = area(5_000, Faction::Enemies, 400, both(damage(50_000, "earth"), impulse(15_000, 800)));
    proof {
        assert(applied(root) =~= Set::<Seq<char>>::empty());
        reveal(written);
        reveal(spell_op);
    }
    let rows = SPELLS;
    spell(rows[9], root)
}

fn life_siphon() -> (d: SpellDef)
    ensures
        written(d, SPELLS@[10], spell_op(10), known_statuses()),
{
    let root = ray(20_000, 0, both(damage(20_000, "void"), heal(12_000)));
    proof {
        assert(applied(root) =~= Set::<Seq<char>>::empty());
        reveal(written);
        reveal(spell_op);
    }
    let rows = SPELLS;
    spell(rows[10], root)
}

fn storm_field() -> (d: SpellDef)
    ensures
        written(d, SPELLS@[11], spell_op(11), known_statuses()),
{
    let root = field(
        6_000,
        5_000,
        500,
        Faction::Enemies,
        both(damage(10_000, "storm"), afflict("status.slow", 1_000, 1)),
    );
    proof {
        assert(applied(root) =~= set!["status.slow"@]);
        assert(STATUSES@[2].0@ == "status.slow"@);
        reveal(written);
        reveal(spell_op);
    }
    let rows = SPELLS;
    spell(rows[11], root)
}

fn mana_draught() -> (d: SpellDef)
    ensures
        written(d, SPELLS@[12], spell_op(12), known_statuses()),
{
    let root = restore_mana(80_000);
    proof {
        assert(applied(root) =~= Set::<Seq<char>>::empty());
        reveal(written);
        reveal(spell_op);
    }
    let rows = SPELLS;
    spell(rows[12], root)
}

/// The list holds the first spells of the table.
#[verifier::opaque]
spec fn learnt(list: Seq<SpellDef>) -> bool {
    forall|i: int|
        0 <= i < list.len() ==> #[trigger] written(
            list[i],
            SPELLS@[i],
            spell_op(i),
            known_statuses(),
        )
}

fn learn(list: &mut Vec<SpellDef>, d: SpellDef)
    requires
        learnt(old(list)@),
        written(
            d,
            SPELLS@[old(list)@.len() as int],
            spell_op(old(list)@.len() as int),
            known_statuses(),
        ),
    ensures
        learnt(final(list)@),
        final(list)@.len() == old(list)@.len() + 1,
{
    let ghost before = list@;
    list.push(d);
    proof {
        reveal(learnt);
        assert forall|i: int| 0 <= i < list@.len() implies #[trigger] written(
            list@[i],
            SPELLS@[i],
            spell_op(i),
            known_statuses(),
        ) by {
            if i < before.len() {
                assert(written(before[i], SPELLS@[i], spell_op(i), known_statuses()));
            }
        }
    }
}

/// The spells, each with the effects at its place. The statuses that they apply are all in
/// the table.
pub fn spells() -> (r: Vec<SpellDef>)
    ensures
        are_spells(r@, SPELLS@, |i: int| spell_op(i)),
        applies_known(r@, known_statuses()),
{
    let mut list: Vec<SpellDef> = Vec::new();
    assert(learnt(list@)) by {
        reveal(learnt);
    }
    learn(&mut list, fireball());
    learn(&mut list, frostbolt());
    learn(&mut list, arcane_lance());
    learn(&mut list, healing_bloom());
    learn(&mut list, meteor());
    learn(&mut list, chain_lightning());
    learn(&mut list, void_grasp());
    learn(&mut list, blink_strike());
    learn(&mut list, summon_wisp());
    learn(&mut list, ground_slam());
    learn(&mut list, life_siphon());
    learn(&mut list, storm_field());
    learn(&mut list, mana_draught());
    proof {
        assert forall|i: int| 0 <= i < list@.len() implies is_spell(#[trigger] list@[i], SPELLS@[i])
            && shown(list@[i].root) == spell_op(i) && applied(list@[i].root).subset_of(
            known_statuses(),
        ) by {
            reveal(learnt);
            assert(written(list@[i], SPELLS@[i], spell_op(i), known_statuses()));
            reveal(written);
        }
    }
    list
}

/// The status effects.
pub fn statuses() -> (r: Vec<StatusEffectDef>)
    ensures
        are_statuses(r@, STATUSES@),
{
    let rows = STATUSES;
    read_all(rows.as_slice(), status)
}

/// The movement modes.
pub fn movement_modes() -> (r: Vec<MovementModeDef>)
    ensures
        are_movements(r@, MOVEMENT_MODES@),
{
    let rows = MOVEMENT_MODES;
    read_all(rows.as_slice(), movement)
}

/// The items.
pub fn items() -> (r: Vec<ItemDef>)
    ensures
        are_items(r@, ITEMS@),
{
    let rows = ITEMS;
    read_all(rows.as_slice(), item)
}

/// The abilities.
pub fn abilities() -> (r: Vec<AbilityDef>)
    ensures
        are_abilities(r@, ABILITIES@),
{
    let rows = ABILITIES;
    read_all(rows.as_slice(), ability)
}

/// The tech tree: four branches, chained tiers.
pub fn tech_tree() -> (r: TechTree)
    ensures
        are_nodes(r.nodes@, TECH_NODES@),
{
    let rows = TECH_NODES;
    TechTree { nodes: read_all(rows.as_slice(), node) }
}

/// The materials.
pub fn materials() -> (r: Vec<MaterialDef>)
    ensures
        are_materials(r@, MATERIALS@),
{
    let rows = MATERIALS;
    read_all(rows.as_slice(), material)
}

/// The shaders.
pub fn shaders() -> (r: Vec<ShaderDef>)
    ensures
        are_shaders(r@, SHADERS@),
{
    let rows = SHADERS;
    read_all(rows.as_slice(), shader)
}

/// The creatures.
pub fn mobs() -> (r: Vec<MobDef>)
    ensures
        are_mobs(r@, MOBS@),
{
    let rows = MOBS;
    read_all(rows.as_slice(), mob)
}

/// The missions.
pub fn missions() -> (r: Vec<MissionDef>)
    ensures
        are_missions(r@, MISSIONS@),
{
    let rows = MISSIONS;
    read_all(rows.as_slice(), mission)
}

/// The abilities that other rows refer to.
pub open spec fn names_abilities(known: Set<Seq<char>>) -> bool {
    &&& known.contains("ability.arcane_lance"@)
    &&& known.contains("ability.ground_slam"@)
    &&& known.contains("ability.void_grasp"@)
    &&& known.contains("ability.life_siphon"@)
    &&& known.contains("ability.chain_lightning"@)
}

proof fn abilities_named(known: Set<Seq<char>>)
    requires
        forall|j: int| 0 <= j < 12 ==> known.contains(#[trigger] ABILITIES@[j].0@),
    ensures
        names_abilities(known),
{
    assert(ABILITIES@[2].0@ == "ability.arcane_lance"@);
    assert(ABILITIES@[9].0@ == "ability.ground_slam"@);
    assert(ABILITIES@[3].0@ == "ability.void_grasp"@);
    assert(ABILITIES@[10].0@ == "ability.life_siphon"@);
    assert(ABILITIES@[6].0@ == "ability.chain_lightning"@);
}

/// The spells that other rows refer to.
pub open spec fn names_spells(known: Set<Seq<char>>) -> bool {
    &&& known.contains("spell.fireball"@)
    &&& known.contains("spell.frostbolt"@)
    &&& known.contains("spell.arcane_lance"@)
    &&& known.contains("spell.void_grasp"@)
    &&& known.contains("spell.healing_bloom"@)
    &&& known.contains("spell.meteor"@)
    &&& known.contains("spell.chain_lightning"@)
    &&& known.contains("spell.blink_strike"@)
    &&& known.contains("spell.summon_wisp"@)
    &&& known.contains("spell.ground_slam"@)
    &&& known.contains("spell.life_siphon"@)
    &&& known.contains("spell.storm_field"@)
}

proof fn spells_named(known: Set<Seq<char>>)
    requires
        forall|j: int| 0 <= j < 13 ==> known.contains(#[trigger] SPELLS@[j].0@),
    ensures
        names_spells(known),
{
    assert(SPELLS@[0].0@ == "spell.fireball"@);
    assert(SPELLS@[1].0@ == "spell.frostbolt"@);
    assert(SPELLS@[2].0@ == "spell.arcane_lance"@);
    assert(SPELLS@[6].0@ == "spell.void_grasp"@);
    assert(SPELLS@[3].0@ == "spell.healing_bloom"@);
    assert(SPELLS@[4].0@ == "spell.meteor"@);
    assert(SPELLS@[5].0@ == "spell.chain_lightning"@);
    assert(SPELLS@[7].0@ == "spell.blink_strike"@);
    assert(SPELLS@[8].0@ == "spell.summon_wisp"@);
    assert(SPELLS@[9].0@ == "spell.ground_slam"@);
    assert(SPELLS@[10].0@ == "spell.life_siphon"@);
    assert(SPELLS@[11].0@ == "spell.storm_field"@);
}

/// The items that other rows refer to.
pub open spec fn names_items(known: Set<Seq<char>>) -> bool {
    &&& known.contains("item.ember_staff"@)
    &&& known.contains("item.phoenix_amulet"@)
    &&& known.contains("item.frost_staff"@)
    &&& known.contains("item.arcane_orb"@)
    &&& known.contains("item.archmage_robe"@)
    &&& known.contains("item.storm_ring"@)
    &&& known.contains("item.void_relic"@)
    &&& known.contains("item.swiftboots"@)
    &&& known.contains("item.grapple_glove"@)
    &&& known.contains("item.glider_cloak"@)
}

proof fn items_named(known: Set<Seq<char>>)
    requires
        forall|j: int| 0 <= j < 14 ==> known.contains(#[trigger] ITEMS@[j].0@),
    ensures
        names_items(known),
{
    assert(ITEMS@[2].0@ == "item.ember_staff"@);
    assert(ITEMS@[11].0@ == "item.phoenix_amulet"@);
    assert(ITEMS@[3].0@ == "item.frost_staff"@);
    assert(ITEMS@[4].0@ == "item.arcane_orb"@);
    assert(ITEMS@[10].0@ == "item.archmage_robe"@);
    assert(ITEMS@[12].0@ == "item.storm_ring"@);
    assert(ITEMS@[5].0@ == "item.void_relic"@);
    assert(ITEMS@[6].0@ == "item.swiftboots"@);
    assert(ITEMS@[7].0@ == "item.grapple_glove"@);
    assert(ITEMS@[8].0@ == "item.glider_cloak"@);
}

proof fn abilities_resolve(known: Set<Seq<char>>)
    requires
        names_spells(known),
    ensures
        forall|i: int| 0 <= i < 12 ==> known.contains(#[trigger] ABILITIES@[i].2@),
{
    assert forall|i: int| 0 <= i < 12 implies known.contains(
        #[trigger] ABILITIES@[i].2@,
    ) by {
        if i == 0 {
        } else if i == 1 {
        } else if i == 2 {
        } else if i == 3 {
        } else if i == 4 {
        } else if i == 5 {
        } else if i == 6 {
        } else if i == 7 {
        } else if i == 8 {
        } else if i == 9 {
        } else if i == 10 {
        } else if i == 11 {
        }
    }
}

proof fn tech_nodes_resolve(known: Set<Seq<char>>)
    requires
        names_items(known),
    ensures
        forall|i: int|
            0 <= i < 16 ==> row_known(
                (#[trigger] TECH_NODES@[i]).8.0,
                TECH_NODES@[i].8.1@,
                known,
            ),
{
    assert forall|i: int| 0 <= i < 16 implies row_known(
        (#[trigger] TECH_NODES@[i]).8.0,
        TECH_NODES@[i].8.1@,
        known,
    ) by {
        if i == 0 {
        } else if i == 1 {
        } else if i == 2 {
        } else if i == 3 {
        } else if i == 4 {
        } else if i == 5 {
        } else if i == 6 {
        } else if i == 7 {
        } else if i == 8 {
        } else if i == 9 {
        } else if i == 10 {
        } else if i == 11 {
        } else if i == 12 {
        } else if i == 13 {
        } else if i == 14 {
        } else if i == 15 {
        }
    }
}

proof fn mobs_resolve(known: Set<Seq<char>>)
    requires
        names_abilities(known),
    ensures
        forall|i: int|
            0 <= i < 4 ==> row_known((#[trigger] MOBS@[i]).4.0, MOBS@[i].4.1@, known),
{
    assert forall|i: int| 0 <= i < 4 implies row_known(
        (#[trigger] MOBS@[i]).4.0,
        MOBS@[i].4.1@,
        known,
    ) by {
        if i == 0 {
        } else if i == 1 {
        } else if i == 2 {
        } else if i == 3 {
        }
    }
}

/// The rules of the match, which the starter tables leave open: how it is played and won,
/// what drops, what spawns where, and what events set off.
pub struct StarterRules {
    pub game_modes: Vec<GameModeDef>,
    pub loot_tables: Vec<LootTableDef>,
    pub spawn_rules: Vec<SpawnRuleDef>,
    pub triggers: Vec<TriggerDef>,
}

/// The pack is made of the starter tables and these rules, in the default world, with
/// standard tuning and no gear economy.
#[verifier::opaque]
pub open spec fn is_starter(p: ContentPack, rules: StarterRules) -> bool {
    &&& p.label@ == "cerena-default-0.2"@
    &&& are_spells(p.spells@, SPELLS@, |i: int| spell_op(i))
    &&& are_items(p.items@, ITEMS@)
    &&& are_abilities(p.abilities@, ABILITIES@)
    &&& are_nodes(p.tech.nodes@, TECH_NODES@)
    &&& are_statuses(p.statuses@, STATUSES@)
    &&& are_movements(p.movement_modes@, MOVEMENT_MODES@)
    &&& are_materials(p.materials@, MATERIALS@)
    &&& are_shaders(p.shaders@, SHADERS@)
    &&& are_mobs(p.mobs@, MOBS@)
    &&& are_missions(p.missions@, MISSIONS@)
    &&& p.worldgen.mystery_terrain() && p.worldgen.mystery_places()
    &&& call_ensures(TuningConfig::default, (), p.tuning)
    &&& call_ensures(ForgeConfig::default, (), p.forge)
    &&& p.game_modes == rules.game_modes
    &&& p.loot_tables == rules.loot_tables
    &&& p.spawn_rules == rules.spawn_rules
    &&& p.triggers == rules.triggers
    &&& p.affixes@.len() == 0
    &&& p.gems@.len() == 0
    &&& p.item_sets@.len() == 0
    &&& p.enchants@.len() == 0
    &&& p.runewords@.len() == 0
}

/// No reference of the pack's rules dangles.
pub open spec fn rules_closed(p: ContentPack) -> bool {
    &&& forall|i: int| 0 <= i < p.game_modes@.len() ==> #[trigger] p.game_mode_closed(i)
    &&& forall|i: int| 0 <= i < p.loot_tables@.len() ==> #[trigger] p.loot_table_closed(i)
    &&& forall|i: int| 0 <= i < p.spawn_rules@.len() ==> #[trigger] p.spawn_rule_closed(i)
    &&& forall|i: int| 0 <= i < p.triggers@.len() ==> #[trigger] p.trigger_closed(i)
}

proof fn statuses_cover(p: ContentPack)
    requires
        forall|j: int|
            0 <= j < STATUSES@.len() ==> keys(p.statuses@).contains((#[trigger] STATUSES@[j]).0@),
    ensures
        known_statuses().subset_of(keys(p.statuses@)),
{
    assert forall|k: Seq<char>| known_statuses().contains(k) implies keys(p.statuses@).contains(
        k,
    ) by {
        let j = choose|j: int| 0 <= j < STATUSES@.len() && #[trigger] STATUSES@[j].0@ == k;
        assert(keys(p.statuses@).contains(STATUSES@[j].0@));
    }
}

proof fn spells_known(p: ContentPack, n: int)
    requires
        0 <= n <= p.spells@.len(),
        are_spells(p.spells@.skip(n), SPELLS@, |i: int| spell_op(i)),
    ensures
        names_spells(keys(p.spells@)),
{
    spells_added(p, n, SPELLS@, |i: int| spell_op(i));
    spells_named(keys(p.spells@));
}

proof fn items_known(p: ContentPack, n: int)
    requires
        0 <= n <= p.items@.len(),
        are_items(p.items@.skip(n), ITEMS@),
    ensures
        names_items(keys(p.items@)),
{
    items_added(p, n, ITEMS@);
    items_named(keys(p.items@));
}

proof fn abilities_known(p: ContentPack, n: int)
    requires
        0 <= n <= p.abilities@.len(),
        are_abilities(p.abilities@.skip(n), ABILITIES@),
    ensures
        names_abilities(keys(p.abilities@)),
{
    abilities_added(p, n, ABILITIES@);
    abilities_named(keys(p.abilities@));
}

proof fn statuses_known(p: ContentPack, n: int)
    requires
        0 <= n <= p.statuses@.len(),
        are_statuses(p.statuses@.skip(n), STATUSES@),
    ensures
        known_statuses().subset_of(keys(p.statuses@)),
{
    statuses_added(p, n, STATUSES@);
    statuses_cover(p);
}

proof fn abilities_resolved(p: ContentPack, n: int)
    requires
        0 <= n <= p.abilities@.len(),
        are_abilities(p.abilities@.skip(n), ABILITIES@),
        names_spells(keys(p.spells@)),
    ensures
        forall|i: int| n <= i < p.abilities@.len() ==> #[trigger] p.ability_closed(i),
{
    abilities_resolve(keys(p.spells@));
    abilities_closed(p, n, ABILITIES@);
}

proof fn nodes_resolved(p: ContentPack, n: int)
    requires
        0 <= n <= p.tech.nodes@.len(),
        are_nodes(p.tech.nodes@.skip(n), TECH_NODES@),
        names_items(keys(p.items@)),
    ensures
        forall|i: int| n <= i < p.tech.nodes@.len() ==> #[trigger] p.tech_node_closed(i),
{
    tech_nodes_resolve(keys(p.items@));
    nodes_closed(p, n, TECH_NODES@);
}

proof fn mobs_resolved(p: ContentPack, n: int)
    requires
        0 <= n <= p.mobs@.len(),
        are_mobs(p.mobs@.skip(n), MOBS@),
        names_abilities(keys(p.abilities@)),
    ensures
        forall|i: int| n <= i < p.mobs@.len() ==> #[trigger] casts_known(p, i),
{
    mobs_resolve(keys(p.abilities@));
    mobs_cast(p, n, MOBS@);
}

/// Every cross-reference of the starter tables resolves, so a starter pack is valid exactly if
/// its rules are.
pub proof fn starter_pack_resolves(p: ContentPack, rules: StarterRules)
    requires
        is_starter(p, rules),
        applies_known(p.spells@, known_statuses()),
    ensures
        p.problem() is None <==> rules_closed(p),
        mobs_closed(p),
{
    reveal(is_starter);
    assert(p.spells@.skip(0) =~= p.spells@);
    assert(p.items@.skip(0) =~= p.items@);
    assert(p.abilities@.skip(0) =~= p.abilities@);
    assert(p.tech.nodes@.skip(0) =~= p.tech.nodes@);
    assert(p.statuses@.skip(0) =~= p.statuses@);
    assert(p.mobs@.skip(0) =~= p.mobs@);
    spells_known(p, 0);
    items_known(p, 0);
    abilities_known(p, 0);
    statuses_known(p, 0);
    abilities_resolved(p, 0);
    nodes_resolved(p, 0);
    mobs_resolved(p, 0);
    assert forall|i: int| 0 <= i < p.spells@.len() implies #[trigger] p.spell_closed(i) by {
        assert(applied(p.spells@[i].root).subset_of(known_statuses()));
    }
    valid_means_closed(p);
}

/// Build the starter pack around the rules of the match.
pub fn starter_pack(rules: StarterRules) -> (r: ContentPack)
    ensures
        is_starter(r, rules),
        applies_known(r.spells@, known_statuses()),
        r.problem() is None <==> rules_closed(r),
        mobs_closed(r),
{
    let pack = ContentPack {
        label: "cerena-default-0.2".to_owned(),
        spells: spells(),
        items: items(),
        abilities: abilities(),
        tech: tech_tree(),
        statuses: statuses(),
        movement_modes: movement_modes(),
        materials: materials(),
        shaders: shaders(),
        worldgen: WorldGenParams::default(),
        mobs: mobs(),
        missions: missions(),
        tuning: TuningConfig::default(),
        game_modes: rules.game_modes,
        loot_tables: rules.loot_tables,
        spawn_rules: rules.spawn_rules,
        triggers: rules.triggers,
        affixes: Vec::new(),
        gems: Vec::new(),
        item_sets: Vec::new(),
        enchants: Vec::new(),
        runewords: Vec::new(),
        forge: ForgeConfig::default(),
    };
    assert(is_starter(pack, rules)) by {
        reveal(is_starter);
    }
    proof {
        starter_pack_resolves(pack, rules);
    }
    pack
}

/// No reference of the match's rules dangles in the pack, and they hold the loot table that the
/// expansion draws on.
pub open spec fn rules_resolve(p: ContentPack, rules: StarterRules) -> bool {
    &&& forall|i: int| 0 <= i < rules.game_modes@.len() ==> #[trigger] p.game_mode_closed(i)
    &&& forall|i: int| 0 <= i < rules.loot_tables@.len() ==> #[trigger] p.loot_table_closed(i)
    &&& forall|i: int| 0 <= i < rules.spawn_rules@.len() ==> #[trigger] p.spawn_rule_closed(i)
    &&& forall|i: int| 0 <= i < rules.triggers@.len() ==> #[trigger] p.trigger_closed(i)
    &&& keys(p.loot_tables@).contains("loot.boss"@)
}

proof fn starter_supports(s: ContentPack, rules: StarterRules)
    requires
        is_starter(s, rules),
    ensures
        keys(s.items@).contains("item.void_essence"@),
        keys(s.items@).contains("item.void_relic"@),
        keys(s.items@).contains("item.crystal_shard"@),
        keys(s.items@).contains("item.mana_crystal"@),
        keys(s.abilities@).contains("ability.fireball"@),
        keys(s.statuses@).contains("status.invisible"@),
{
    reveal(is_starter);
    assert(s.items@.skip(0) =~= s.items@);
    assert(s.abilities@.skip(0) =~= s.abilities@);
    assert(s.statuses@.skip(0) =~= s.statuses@);
    items_added(s, 0, ITEMS@);
    abilities_added(s, 0, ABILITIES@);
    statuses_added(s, 0, STATUSES@);
    assert(ITEMS@[0].0@ == "item.crystal_shard"@);
    assert(ITEMS@[1].0@ == "item.void_essence"@);
    assert(ITEMS@[5].0@ == "item.void_relic"@);
    assert(ITEMS@[13].0@ == "item.mana_crystal"@);
    assert(ABILITIES@[0].0@ == "ability.fireball"@);
    assert(STATUSES@[9].0@ == "status.invisible"@);
}

/// The default pack is valid exactly if the rules of the match resolve in it. `bare` is the
/// starter pack without any rules.
proof fn default_pack_resolves(
    bare: ContentPack,
    s: ContentPack,
    p: ContentPack,
    none: StarterRules,
    rules: StarterRules,
)
    requires
        is_starter(bare, none),
        none.game_modes@.len() == 0,
        none.loot_tables@.len() == 0,
        none.spawn_rules@.len() == 0,
        none.triggers@.len() == 0,
        applies_known(bare.spells@, known_statuses()),
        s == (ContentPack {
            game_modes: rules.game_modes,
            loot_tables: rules.loot_tables,
            spawn_rules: rules.spawn_rules,
            triggers: rules.triggers,
            ..bare
        }),
        expansion::expanded(s, p),
        applies_known(p.spells@.skip(s.spells@.len() as int), expansion::known_statuses()),
    ensures
        p.problem() is None <==> rules_resolve(p, rules),
{
    expansion::expansion_only_adds(s, p);
    if rules_resolve(p, rules) {
        assert(rules_closed(bare)) by {
            reveal(is_starter);
        }
        starter_pack_resolves(bare, none);
        starter_supports(bare, none);
        keys_grow(bare.items@, p.items@);
        keys_grow(bare.abilities@, p.abilities@);
        keys_grow(bare.statuses@, p.statuses@);
        expansion::expansion_resolves(s, p);
        assert(p.grown_from(bare)) by {
            reveal(is_starter);
        }
        assert(p.additions_closed(bare)) by {
            reveal(is_starter);
        }
        p.growth_keeps_packs_valid(bare);
    }
    if p.problem() is None {
        valid_means_closed(p);
        expansion::expansion_needs_its_loot(s, p);
    }
}

/// Build the full default content pack around the rules of the match: the starter pack with
/// the expansion folded in. It is valid exactly if the rules resolve.
pub fn default_pack(rules: StarterRules) -> (r: ContentPack)
    ensures
        exists|s: ContentPack|
            is_starter(s, rules) && #[trigger] expansion::expanded(s, r),
        r.problem() is None <==> rules_resolve(r, rules),
        mobs_closed(r),
{
    let ghost given = rules;
    let none = StarterRules {
        game_modes: Vec::new(),
        loot_tables: Vec::new(),
        spawn_rules: Vec::new(),
        triggers: Vec::new(),
    };
    let ghost no_rules = none;
    let mut pack = starter_pack(none);
    let ghost bare = pack;
    pack.game_modes = rules.game_modes;
    pack.loot_tables = rules.loot_tables;
    pack.spawn_rules = rules.spawn_rules;
    pack.triggers = rules.triggers;
    let ghost starter = pack;
    assert(mobs_closed(starter)) by {
        assert forall|i: int| 0 <= i < starter.mobs@.len() implies #[trigger] casts_known(
            starter,
            i,
        ) by {
            assert(casts_known(bare, i));
        }
    }
    expansion::apply(&mut pack);
    proof {
        assert(is_starter(starter, given)) by {
            reveal(is_starter);
        }
        assert(expansion::expanded(starter, pack));
        default_pack_resolves(bare, starter, pack, no_rules, given);
    }
    pack
}

} // verus!
