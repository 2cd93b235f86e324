//! # Expansion: *Tempest, Verdance & the Hollow Dead*
//!
//! The first content expansion, folded into [`crate::content::default_pack::default_pack`].
//! The starter pack establishes four schools (Pyromancy, Cryomancy, Arcana, Mobility); this
//! module triples the game on top of it with four more — Stormcalling, Verdancy, Necromancy
//! and Chronomancy — and a short prestige branch, Radiance.
//!
//! Everything here is pure additive data built from the same closed primitive sets as the
//! starter pack. [`apply`] takes a pack and pushes the new definitions onto each collection,
//! and grafts two biomes and their structures onto the world. Ids are new and namespaced by
//! school (`spell.storm.*`, `item.verdance.*`, `mob.dead.*`), so nothing collides with the
//! starter ids.

use crate::content::ability::AbilityDef;
use crate::content::added::{
    abilities_added, abilities_closed, casts_known, items_added, loot_added, loot_closed, mobs_added,
    mobs_cast, mobs_closed, modes_closed, nodes_added, nodes_closed, rule_known, spawns_closed,
    spells_added, statuses_added, triggers_closed,
};
use crate::content::closed::{applied, valid_means_closed};
use crate::content::gamemode::GameModeDef;
use crate::content::growth::{entries_known, extend, extends, keys_grow, pairs_known, row_known};
use crate::content::item::{EquipSlot, ItemDef, Rarity};
use crate::content::keyed::keys;
use crate::content::loot::LootTableDef;
use crate::content::material::{MaterialDef, NoiseKind, ShaderDef, ShaderStage};
use crate::content::mission::MissionDef;
use crate::content::mob::MobDef;
use crate::content::movement::MovementModeDef;
use crate::content::pack::ContentPack;
use crate::content::sheet::ability::{ability, are_abilities, AbilityRow, Bind};
use crate::content::sheet::gamemode::{are_modes, mode, ModeRow, Score, Win};
use crate::content::sheet::item::{are_items, item, ItemRow, NO_RECIPE};
use crate::content::sheet::loot::{are_loot, loot, LootRow, NO_ENTRY};
use crate::content::sheet::material::{
    are_materials, are_shaders, material, shader, MaterialRow, ShaderRow, NO_LAYER,
};
use crate::content::sheet::mission::{are_missions, mission, Goal, MissionRow, NO_GOAL};
use crate::content::sheet::mob::{are_mobs, mob, MobRow};
use crate::content::sheet::movement::{are_movements, movement, Move, MovementRow};
use crate::content::sheet::read_all;
use crate::content::sheet::spawn::{are_spawns, is_spawn, spawn, Arrival, SpawnRow};
use crate::content::sheet::spell::{
    afflict, all_three, applies_known, are_spells, area, at_once, both, cone, damage, delay,
    field, heal, if_marked, impulse, is_spell, mark, noop, perhaps, projectile, ray, repeat,
    shield, shown, spell, summon, teleport, written, Op, SpellRow,
};
use crate::content::sheet::stats::{Stat, NONE};
use crate::content::sheet::status::{are_statuses, status, status_names, Ail, StatusRow};
use crate::content::sheet::tech::{are_nodes, node, Grant, NodeRow, NO_EFFECT};
use crate::content::sheet::trigger::{
    are_triggers, rule, Act, Event, Need, TriggerRow, NO_ACT, NO_NEED,
};
use crate::content::sheet::world::{
    are_biomes, are_structures, biome, structure, BiomeRow, StructureRow,
};
use crate::content::spawn::SpawnRuleDef;
use crate::content::spell::{EffectOp, Faction, SpellDef};
use crate::content::status::StatusEffectDef;
use crate::content::tech::TechNode;
use crate::content::triggers::TriggerDef;
use crate::content::worldgen::WorldGenParams;
use vstd::prelude::*;

verus! {

/// Spells; their effects follow below.
pub const SPELLS: [SpellRow; 25] = [
    (
        "spell.storm.spark",
        "Spark",
        "A snap of lightning that leaves the target crackling with charge.",
        "storm",
        (10_000, 150, 600),
        false,
        (500, 400, 0, 400),
    ),
    (
        "spell.storm.thunderclap",
        "Thunderclap",
        "Detonate the air around you, deafening and flinging back nearby foes.",
        "storm",
        (24_000, 300, 4_000),
        false,
        (700, 300, 0, 500),
    ),
    (
        "spell.storm.gale_step",
        "Gale Step",
        "Ride a gust forward, leaving allies behind you hastened by the draft.",
        "wind",
        (18_000, 0, 6_000),
        false,
        (0, 400, 600, 400),
    ),
    (
        "spell.storm.tempest",
        "Tempest",
        "Anchor a screaming storm cell that shocks, charges, and lifts the unwary.",
        "storm",
        (60_000, 1_000, 14_000),
        false,
        (800, 600, 0, 800),
    ),
    (
        "spell.storm.ball_lightning",
        "Ball Lightning",
        "Loose a slow, homing orb of lightning that forks into nearby foes on contact.",
        "storm",
        (34_000, 500, 7_000),
        false,
        (900, 400, 0, 600),
    ),
    (
        "spell.verdance.thornlash",
        "Thornlash",
        "A whip of barbed vine that rakes a foe and leaves them festering with poison.",
        "nature",
        (14_000, 250, 1_200),
        false,
        (600, 300, 100, 400),
    ),
    (
        "spell.verdance.entangle",
        "Entangling Roots",
        "Burst roots from the soil that seize and hold everything in a patch of ground.",
        "nature",
        (26_000, 400, 6_000),
        false,
        (300, 600, 0, 500),
    ),
    (
        "spell.verdance.thornmail",
        "Barkskin",
        "Sheathe yourself in living bark, hardening your strikes for a time.",
        "nature",
        (20_000, 300, 12_000),
        false,
        (0, 0, 0, 0),
    ),
    (
        "spell.verdance.grove",
        "Living Grove",
        "Coax a grove of light from the earth that knits the wounds of all who shelter in it.",
        "life",
        (40_000, 800, 10_000),
        false,
        (0, 1_000, 0, 700),
    ),
    (
        "spell.verdance.spore_burst",
        "Spore Burst",
        "Fling a fat spore pod that erupts into a choking cloud of toxins.",
        "nature",
        (28_000, 500, 5_000),
        false,
        (700, 400, 0, 500),
    ),
    (
        "spell.verdance.summon_treant",
        "Summon Treant",
        "Wake an ancient treant from a fallen log to lumber to your defence.",
        "nature",
        (48_000, 1_200, 20_000),
        false,
        (0, 900, 0, 800),
    ),
    (
        "spell.dead.shadow_bolt",
        "Shadow Bolt",
        "A clot of unlight that sears the soul long after it strikes.",
        "shadow",
        (18_000, 350, 1_400),
        false,
        (800, 300, 0, 500),
    ),
    (
        "spell.dead.hemorrhage",
        "Hemorrhage",
        "Open a wound that will not close, bleeding the target with every motion.",
        "blood",
        (16_000, 250, 2_000),
        false,
        (700, 200, 100, 400),
    ),
    (
        "spell.dead.curse_of_silence",
        "Curse of Silence",
        "Lay a hex that gnaws the mana from a foe and stills their tongue.",
        "shadow",
        (30_000, 500, 8_000),
        false,
        (300, 700, 0, 500),
    ),
    (
        "spell.dead.harvest",
        "Blood Harvest",
        "A channelled scythe of red mist that reaps health from all it touches into you.",
        "blood",
        (10_000, 0, 1_000),
        true,
        (500, 500, 0, 500),
    ),
    (
        "spell.dead.raise_dead",
        "Raise the Hollow Dead",
        "Tear two risen husks from the ground to shamble after your enemies.",
        "shadow",
        (50_000, 1_300, 22_000),
        false,
        (0, 800, 0, 800),
    ),
    (
        "spell.dead.doom",
        "Mark of Doom",
        "Brand a foe; if the mark is still set when it expires, doom erupts upon them.",
        "shadow",
        (36_000, 600, 10_000),
        false,
        (1_000, 500, 0, 700),
    ),
    (
        "spell.chrono.haste",
        "Quicken",
        "Spin your own thread of time faster, blurring into hastened motion.",
        "chrono",
        (28_000, 0, 14_000),
        false,
        (0, 0, 0, 0),
    ),
    (
        "spell.chrono.stasis",
        "Stasis Field",
        "Thicken time in a patch of ground until those caught within crawl as if mired.",
        "chrono",
        (38_000, 600, 12_000),
        false,
        (0, 700, 0, 600),
    ),
    (
        "spell.chrono.echo_strike",
        "Echo Strike",
        "Strike once now and twice from echoes of the next instant.",
        "chrono",
        (32_000, 300, 6_000),
        false,
        (800, 500, 200, 600),
    ),
    (
        "spell.radiant.smite",
        "Smite",
        "Call a pillar of cleansing light down upon a single foe.",
        "radiant",
        (22_000, 400, 2_000),
        false,
        (900, 400, 0, 500),
    ),
    (
        "spell.radiant.consecrate",
        "Consecrate",
        "Sanctify the ground, blessing allies and searing the undead who tread it.",
        "radiant",
        (44_000, 800, 12_000),
        false,
        (500, 700, 0, 700),
    ),
    (
        "spell.radiant.aegis",
        "Aegis of Light",
        "Wrap an ally in a radiant ward that drinks the next blows aimed at them.",
        "radiant",
        (30_000, 300, 9_000),
        false,
        (0, 0, 0, 0),
    ),
    (
        "spell.consume.elixir_vigor",
        "Elixir of Vigor",
        "A draught that floods the body with healing warmth.",
        "life",
        (0, 0, 0),
        false,
        (0, 0, 0, 0),
    ),
    (
        "spell.consume.smoke_bomb",
        "Smoke Bomb",
        "Shatter a phial of shadow-smoke and vanish from sight.",
        "shadow",
        (0, 0, 0),
        false,
        (0, 0, 0, 0),
    ),
];

/// Status effects.
pub const STATUSES: [StatusRow; 18] = [
    (
        "status.poisoned",
        "Poisoned",
        (Ail::DamageOverTime, 9_000, "nature"),
        5,
        500,
        6_000,
        false,
        "material.moss",
    ),
    ("status.entangled", "Entangled", (Ail::Root, 0, ""), 1, 0, 2_500, false, "material.moss"),
    ("status.thornmail", "Thornmail", (Ail::Empower, 150, ""), 1, 0, 8_000, true, "material.moss"),
    (
        "status.overgrown",
        "Overgrown",
        (Ail::Regen, 10_000, ""),
        3,
        1_000,
        6_000,
        true,
        "material.moss",
    ),
    (
        "status.static_charge",
        "Static Charge",
        (Ail::DamageOverTime, 7_000, "storm"),
        6,
        400,
        5_000,
        false,
        "material.storm_cloud",
    ),
    (
        "status.conductive",
        "Conductive",
        (Ail::Vulnerable, 250, ""),
        3,
        0,
        4_000,
        false,
        "material.storm_cloud",
    ),
    ("status.windswept", "Windswept", (Ail::Haste, 350, ""), 1, 0, 5_000, true, ""),
    (
        "status.levitating",
        "Levitating",
        (Ail::Levitate, 0, ""),
        1,
        0,
        3_000,
        false,
        "material.storm_cloud",
    ),
    (
        "status.bleeding",
        "Bleeding",
        (Ail::DamageOverTime, 11_000, "blood"),
        4,
        500,
        5_000,
        false,
        "material.blood",
    ),
    (
        "status.soul_burn",
        "Soul Burn",
        (Ail::DamageOverTime, 14_000, "shadow"),
        3,
        500,
        6_000,
        false,
        "material.obsidian",
    ),
    (
        "status.cursed",
        "Cursed",
        (Ail::ManaBurn, 8_000, ""),
        1,
        1_000,
        6_000,
        false,
        "material.obsidian",
    ),
    ("status.silenced", "Silenced", (Ail::Silence, 0, ""), 1, 0, 2_500, false, "material.obsidian"),
    (
        "status.withered",
        "Withered",
        (Ail::Vulnerable, 300, ""),
        1,
        0,
        6_000,
        false,
        "material.obsidian",
    ),
    ("status.petrified", "Petrified", (Ail::Frozen, 0, ""), 1, 0, 2_000, false, "material.bone"),
    ("status.timewarp", "Time-Warped", (Ail::Haste, 600, ""), 1, 0, 5_000, true, "material.gilded"),
    ("status.timelock", "Time-Locked", (Ail::Slow, 700, ""), 1, 0, 3_000, false, "material.gilded"),
    (
        "status.sanctified",
        "Sanctified",
        (Ail::Empower, 300, ""),
        1,
        0,
        8_000,
        true,
        "material.gilded",
    ),
    (
        "status.radiant_ward",
        "Radiant Ward",
        (Ail::Shielded, 120_000, ""),
        1,
        0,
        7_000,
        true,
        "material.gilded",
    ),
];

/// Movement and parkour modes.
pub const MOVEMENT_MODES: [MovementRow; 8] = [
    ("movement.updraft", "Updraft", (Move::DoubleJump, 2, [9_000, 0, 0]), 8_000, 500, 8_000),
    ("movement.shadowstep", "Shadowstep", (Move::Blink, 0, [12_000, 0, 0]), 18_000, 3_000, 0),
    ("movement.vine_swing", "Vine Swing", (Move::Grapple, 0, [36_000, 26_000, 0]), 4_000, 1_500, 0),
    ("movement.tide_slide", "Tide Slide", (Move::Slide, 0, [18_000, 1_400, 0]), 0, 800, 7_000),
    ("movement.gale_sprint", "Gale Sprint", (Move::Sprint, 0, [1_900, 0, 0]), 0, 0, 5_000),
    ("movement.feather_fall", "Feather Fall", (Move::Glide, 0, [200, 8_000, 0]), 0, 0, 4_000),
    (
        "movement.comet_dive",
        "Comet Dive",
        (Move::GroundSlam, 0, [70_000, 6_000, 55_000]),
        10_000,
        4_000,
        22_000,
    ),
    (
        "movement.spirit_run",
        "Spirit Wall-Run",
        (Move::WallRun, 0, [4_000, 12_000, 150]),
        0,
        0,
        10_000,
    ),
];

/// Items: reagents, gear that grants spells, modes and stats, consumables.
pub const ITEMS: [ItemRow; 18] = [
    (
        "item.verdance.seed_pod",
        "Seed Pod",
        "A swollen pod of volatile spores. A reagent.",
        Rarity::Common,
        EquipSlot::Unworn,
        [NONE, NONE, NONE, NONE, NONE],
        (0, ["", "", ""]),
        (0, ["", ""]),
        (0, [""]),
        "material.moss",
        (true, 99),
        "",
        0,
        NO_RECIPE,
    ),
    (
        "item.verdance.heartwood",
        "Heartwood",
        "A knot of living wood that will not rot. A reagent.",
        Rarity::Uncommon,
        EquipSlot::Unworn,
        [NONE, NONE, NONE, NONE, NONE],
        (0, ["", "", ""]),
        (0, ["", ""]),
        (0, [""]),
        "material.moss",
        (true, 99),
        "",
        0,
        NO_RECIPE,
    ),
    (
        "item.storm.charged_core",
        "Charged Core",
        "A core that hums and stings to the touch. A reagent.",
        Rarity::Uncommon,
        EquipSlot::Unworn,
        [NONE, NONE, NONE, NONE, NONE],
        (0, ["", "", ""]),
        (0, ["", ""]),
        (0, [""]),
        "material.storm_cloud",
        (true, 99),
        "",
        0,
        NO_RECIPE,
    ),
    (
        "item.dead.bone_dust",
        "Bone Dust",
        "Ground remnants of the restless dead. A reagent.",
        Rarity::Common,
        EquipSlot::Unworn,
        [NONE, NONE, NONE, NONE, NONE],
        (0, ["", "", ""]),
        (0, ["", ""]),
        (0, [""]),
        "material.bone",
        (true, 99),
        "",
        0,
        NO_RECIPE,
    ),
    (
        "item.dead.shadow_silk",
        "Shadow Silk",
        "Thread spun from a shade's wail. A reagent.",
        Rarity::Rare,
        EquipSlot::Unworn,
        [NONE, NONE, NONE, NONE, NONE],
        (0, ["", "", ""]),
        (0, ["", ""]),
        (0, [""]),
        "material.obsidian",
        (true, 99),
        "",
        0,
        NO_RECIPE,
    ),
    (
        "item.radiant.gilded_feather",
        "Gilded Feather",
        "A feather that holds its own light. A reagent.",
        Rarity::Rare,
        EquipSlot::Unworn,
        [NONE, NONE, NONE, NONE, NONE],
        (0, ["", "", ""]),
        (0, ["", ""]),
        (0, [""]),
        "material.gilded",
        (true, 99),
        "",
        0,
        NO_RECIPE,
    ),
    (
        "item.storm.staff_tempest",
        "Tempest Staff",
        "A rod of fulgurite that drinks the sky's anger.",
        Rarity::Epic,
        EquipSlot::Staff,
        [(Stat::Power, 14_000), (Stat::Focus, 8_000), (Stat::SpellPowerPct, 100), NONE, NONE],
        (2, ["spell.storm.spark", "spell.storm.ball_lightning", ""]),
        (0, ["", ""]),
        (1, ["ability.storm.spark"]),
        "material.storm_cloud",
        (false, 1),
        "",
        6,
        NO_RECIPE,
    ),
    (
        "item.verdance.staff_thorn",
        "Thornwood Staff",
        "A staff still budding, alive in your grip.",
        Rarity::Epic,
        EquipSlot::Staff,
        [(Stat::Focus, 12_000), (Stat::MaxMana, 40_000), (Stat::ManaRegen, 2_000), NONE, NONE],
        (2, ["spell.verdance.thornlash", "spell.verdance.entangle", ""]),
        (0, ["", ""]),
        (1, ["ability.verdance.thornlash"]),
        "material.moss",
        (false, 1),
        "",
        6,
        ((2, [("item.verdance.heartwood", 4), ("item.crystal_shard", 2)]), "tech.verdance_2"),
    ),
    (
        "item.dead.scepter_grave",
        "Grave Scepter",
        "Bone fused to black iron; it remembers every death it dealt.",
        Rarity::Legendary,
        EquipSlot::Staff,
        [(Stat::Power, 18_000), (Stat::Focus, 10_000), (Stat::SpellPowerPct, 140), NONE, NONE],
        (3, ["spell.dead.shadow_bolt", "spell.dead.hemorrhage", "spell.dead.harvest"]),
        (0, ["", ""]),
        (1, ["ability.dead.shadow_bolt"]),
        "material.bone",
        (false, 1),
        "",
        14,
        NO_RECIPE,
    ),
    (
        "item.chrono.hourglass",
        "Sand-Bound Hourglass",
        "Time pools in it like honey; tilt it and the world lurches.",
        Rarity::Legendary,
        EquipSlot::Relic,
        [
            (Stat::Focus, 16_000),
            (Stat::CooldownReduction, 120),
            (Stat::MaxMana, 60_000),
            NONE,
            NONE,
        ],
        (3, ["spell.chrono.haste", "spell.chrono.stasis", "spell.chrono.echo_strike"]),
        (0, ["", ""]),
        (1, ["ability.chrono.haste"]),
        "material.gilded",
        (false, 1),
        "",
        16,
        ((2, [("item.radiant.gilded_feather", 3), ("item.crystal_shard", 6)]), "tech.chrono_2"),
    ),
    (
        "item.dead.amulet_lich",
        "Lich's Phylactery",
        "A cold locket that knots your soul to the world. It is not warm to wear.",
        Rarity::Mythic,
        EquipSlot::Amulet,
        [
            (Stat::Power, 22_000),
            (Stat::Focus, 14_000),
            (Stat::MaxHealth, 60_000),
            (Stat::SpellPowerPct, 180),
            NONE,
        ],
        (2, ["spell.dead.raise_dead", "spell.dead.doom", ""]),
        (0, ["", ""]),
        (1, ["ability.dead.raise_dead"]),
        "material.obsidian",
        (false, 1),
        "",
        20,
        NO_RECIPE,
    ),
    (
        "item.storm.ring_tempest",
        "Ring of the Tempest",
        "A band that thrums before the thunder comes.",
        Rarity::Epic,
        EquipSlot::Ring,
        [(Stat::Power, 12_000), (Stat::Focus, 6_000), (Stat::CooldownReduction, 80), NONE, NONE],
        (1, ["spell.storm.tempest", "", ""]),
        (0, ["", ""]),
        (1, ["ability.storm.tempest"]),
        "material.storm_cloud",
        (false, 1),
        "",
        10,
        NO_RECIPE,
    ),
    (
        "item.radiant.crown_dawn",
        "Crown of Dawn",
        "A circlet of fixed sunlight worn by the wardens of the heights.",
        Rarity::Legendary,
        EquipSlot::Amulet,
        [
            (Stat::Focus, 18_000),
            (Stat::Vitality, 12_000),
            (Stat::MaxHealth, 70_000),
            (Stat::SpellPowerPct, 120),
            NONE,
        ],
        (3, ["spell.radiant.smite", "spell.radiant.consecrate", "spell.radiant.aegis"]),
        (0, ["", ""]),
        (1, ["ability.radiant.smite"]),
        "material.gilded",
        (false, 1),
        "",
        15,
        NO_RECIPE,
    ),
    (
        "item.storm.windsoles",
        "Windsoles",
        "Boots woven from gale and ghost-thread; you barely touch the ground.",
        Rarity::Rare,
        EquipSlot::Boots,
        [(Stat::Agility, 10_000), (Stat::MoveSpeed, 1_200), NONE, NONE, NONE],
        (0, ["", "", ""]),
        (2, ["movement.gale_sprint", "movement.feather_fall"]),
        (0, [""]),
        "material.storm_cloud",
        (false, 1),
        "",
        5,
        NO_RECIPE,
    ),
    (
        "item.dead.shadow_cloak",
        "Cloak of the Hollow",
        "Shadow stitched into cloth; step into it and step out elsewhere.",
        Rarity::Epic,
        EquipSlot::Trinket,
        [(Stat::Agility, 8_000), (Stat::Focus, 6_000), NONE, NONE, NONE],
        (0, ["", "", ""]),
        (1, ["movement.shadowstep", ""]),
        (0, [""]),
        "material.obsidian",
        (false, 1),
        "",
        9,
        ((2, [("item.dead.shadow_silk", 5), ("item.void_essence", 2)]), "tech.necro_3"),
    ),
    (
        "item.verdance.vinecaster",
        "Vinecaster Gauntlet",
        "A glove that grows a living vine to swing you through the canopy.",
        Rarity::Rare,
        EquipSlot::Trinket,
        [(Stat::Agility, 7_000), NONE, NONE, NONE, NONE],
        (0, ["", "", ""]),
        (1, ["movement.vine_swing", ""]),
        (0, [""]),
        "material.moss",
        (false, 1),
        "",
        5,
        NO_RECIPE,
    ),
    (
        "item.consume.vigor_elixir",
        "Elixir of Vigor",
        "A thick green draught that mends flesh in a rush of warmth.",
        Rarity::Uncommon,
        EquipSlot::Consumable,
        [NONE, NONE, NONE, NONE, NONE],
        (0, ["", "", ""]),
        (0, ["", ""]),
        (0, [""]),
        "material.moss",
        (true, 10),
        "spell.consume.elixir_vigor",
        1,
        ((2, [("item.verdance.seed_pod", 3), ("item.crystal_shard", 1)]), ""),
    ),
    (
        "item.consume.smoke_phial",
        "Shadow Phial",
        "Break it and the world loses sight of you.",
        Rarity::Rare,
        EquipSlot::Consumable,
        [NONE, NONE, NONE, NONE, NONE],
        (0, ["", "", ""]),
        (0, ["", ""]),
        (0, [""]),
        "material.obsidian",
        (true, 10),
        "spell.consume.smoke_bomb",
        1,
        ((1, [("item.dead.shadow_silk", 2), ("", 0)]), "tech.necro_1"),
    ),
];

/// Abilities: spells wired to inputs.
pub const ABILITIES: [AbilityRow; 23] = [
    ("ability.storm.spark", "Spark", "spell.storm.spark", (Bind::Primary, 0)),
    ("ability.storm.thunderclap", "Thunderclap", "spell.storm.thunderclap", (Bind::Slot, 1)),
    ("ability.storm.gale_step", "Gale Step", "spell.storm.gale_step", (Bind::Slot, 2)),
    ("ability.storm.tempest", "Tempest", "spell.storm.tempest", (Bind::Slot, 3)),
    (
        "ability.storm.ball_lightning",
        "Ball Lightning",
        "spell.storm.ball_lightning",
        (Bind::Secondary, 0),
    ),
    ("ability.verdance.thornlash", "Thornlash", "spell.verdance.thornlash", (Bind::Primary, 0)),
    ("ability.verdance.entangle", "Entangling Roots", "spell.verdance.entangle", (Bind::Slot, 4)),
    ("ability.verdance.thornmail", "Barkskin", "spell.verdance.thornmail", (Bind::Slot, 5)),
    ("ability.verdance.grove", "Living Grove", "spell.verdance.grove", (Bind::Slot, 6)),
    (
        "ability.verdance.spore_burst",
        "Spore Burst",
        "spell.verdance.spore_burst",
        (Bind::Secondary, 0),
    ),
    (
        "ability.verdance.summon_treant",
        "Summon Treant",
        "spell.verdance.summon_treant",
        (Bind::Slot, 7),
    ),
    ("ability.dead.shadow_bolt", "Shadow Bolt", "spell.dead.shadow_bolt", (Bind::Primary, 0)),
    ("ability.dead.hemorrhage", "Hemorrhage", "spell.dead.hemorrhage", (Bind::Secondary, 0)),
    (
        "ability.dead.curse_of_silence",
        "Curse of Silence",
        "spell.dead.curse_of_silence",
        (Bind::Slot, 8),
    ),
    ("ability.dead.harvest", "Blood Harvest", "spell.dead.harvest", (Bind::Slot, 1)),
    ("ability.dead.raise_dead", "Raise the Hollow Dead", "spell.dead.raise_dead", (Bind::Slot, 2)),
    ("ability.dead.doom", "Mark of Doom", "spell.dead.doom", (Bind::Slot, 3)),
    ("ability.chrono.haste", "Quicken", "spell.chrono.haste", (Bind::Slot, 4)),
    ("ability.chrono.stasis", "Stasis Field", "spell.chrono.stasis", (Bind::Slot, 5)),
    ("ability.chrono.echo_strike", "Echo Strike", "spell.chrono.echo_strike", (Bind::Secondary, 0)),
    ("ability.radiant.smite", "Smite", "spell.radiant.smite", (Bind::Primary, 0)),
    ("ability.radiant.consecrate", "Consecrate", "spell.radiant.consecrate", (Bind::Slot, 6)),
    ("ability.radiant.aegis", "Aegis of Light", "spell.radiant.aegis", (Bind::Slot, 7)),
];

/// Tech nodes, branch by branch in chained tiers.
pub const TECH_NODES: [NodeRow; 17] = [
    (
        "tech.storm_1",
        "Static",
        "Feel the charge gather at your fingertips.",
        "Stormcalling",
        0,
        1,
        (0, [""]),
        (1, [(Grant::Ability, "ability.storm.spark", (0, 0), [NONE, NONE]), NO_EFFECT, NO_EFFECT]),
        (1, ["item.storm.windsoles"]),
    ),
    (
        "tech.storm_2",
        "Conductor",
        "Lightning leaps where you will it; your sparks bite deeper.",
        "Stormcalling",
        1,
        2,
        (1, ["tech.storm_1"]),
        (
            2,
            [
                (Grant::Stats, "", (0, 0), [(Stat::Power, 8_000), (Stat::Focus, 4_000)]),
                (Grant::Ability, "ability.storm.ball_lightning", (0, 0), [NONE, NONE]),
                NO_EFFECT,
            ],
        ),
        (1, ["item.storm.staff_tempest"]),
    ),
    (
        "tech.storm_3",
        "Galecaller",
        "Bend the wind to carry you and your allies.",
        "Stormcalling",
        2,
        3,
        (1, ["tech.storm_2"]),
        (
            2,
            [
                (Grant::Ability, "ability.storm.gale_step", (0, 0), [NONE, NONE]),
                (Grant::Movement, "movement.gale_sprint", (0, 0), [NONE, NONE]),
                NO_EFFECT,
            ],
        ),
        (0, [""]),
    ),
    (
        "tech.storm_4",
        "Stormlord",
        "The tempest answers to your name.",
        "Stormcalling",
        3,
        4,
        (1, ["tech.storm_3"]),
        (
            2,
            [
                (Grant::Ability, "ability.storm.tempest", (0, 0), [NONE, NONE]),
                (Grant::Budget, "", (4, 2), [NONE, NONE]),
                NO_EFFECT,
            ],
        ),
        (1, ["item.storm.ring_tempest"]),
    ),
    (
        "tech.verdance_1",
        "First Bloom",
        "Awaken the green; lash with thorn and vine.",
        "Verdancy",
        0,
        1,
        (0, [""]),
        (
            1,
            [
                (Grant::Ability, "ability.verdance.thornlash", (0, 0), [NONE, NONE]),
                NO_EFFECT,
                NO_EFFECT,
            ],
        ),
        (1, ["item.verdance.vinecaster"]),
    ),
    (
        "tech.verdance_2",
        "Rootbinder",
        "Coax the soil to seize your foes and craft a living staff.",
        "Verdancy",
        1,
        2,
        (1, ["tech.verdance_1"]),
        (
            3,
            [
                (Grant::Ability, "ability.verdance.entangle", (0, 0), [NONE, NONE]),
                (Grant::Recipe, "item.verdance.staff_thorn", (0, 0), [NONE, NONE]),
                (Grant::Movement, "movement.vine_swing", (0, 0), [NONE, NONE]),
            ],
        ),
        (1, ["item.verdance.staff_thorn"]),
    ),
    (
        "tech.verdance_3",
        "Lifeweaver",
        "Grow groves that mend, and harden your skin to bark.",
        "Verdancy",
        2,
        3,
        (1, ["tech.verdance_2"]),
        (
            2,
            [
                (Grant::Ability, "ability.verdance.grove", (0, 0), [NONE, NONE]),
                (Grant::Spell, "spell.verdance.thornmail", (0, 0), [NONE, NONE]),
                NO_EFFECT,
            ],
        ),
        (0, [""]),
    ),
    (
        "tech.verdance_4",
        "Wildshaper",
        "Call the old forest's children to your side.",
        "Verdancy",
        3,
        4,
        (1, ["tech.verdance_3"]),
        (
            2,
            [
                (Grant::Ability, "ability.verdance.summon_treant", (0, 0), [NONE, NONE]),
                (Grant::Stats, "", (0, 0), [(Stat::Focus, 12_000), (Stat::MaxHealth, 40_000)]),
                NO_EFFECT,
            ],
        ),
        (0, [""]),
    ),
    (
        "tech.necro_1",
        "Touch of Death",
        "Reach across the veil; loose a bolt of unlight.",
        "Necromancy",
        0,
        1,
        (0, [""]),
        (
            1,
            [
                (Grant::Ability, "ability.dead.shadow_bolt", (0, 0), [NONE, NONE]),
                NO_EFFECT,
                NO_EFFECT,
            ],
        ),
        (1, ["item.consume.smoke_phial"]),
    ),
    (
        "tech.necro_2",
        "Bloodletter",
        "Make wounds that will not close; reap what bleeds.",
        "Necromancy",
        1,
        2,
        (1, ["tech.necro_1"]),
        (
            2,
            [
                (Grant::Ability, "ability.dead.hemorrhage", (0, 0), [NONE, NONE]),
                (Grant::Ability, "ability.dead.harvest", (0, 0), [NONE, NONE]),
                NO_EFFECT,
            ],
        ),
        (1, ["item.dead.scepter_grave"]),
    ),
    (
        "tech.necro_3",
        "Hexweaver",
        "Bind tongues and burn souls; walk through shadow.",
        "Necromancy",
        2,
        3,
        (1, ["tech.necro_2"]),
        (
            3,
            [
                (Grant::Ability, "ability.dead.curse_of_silence", (0, 0), [NONE, NONE]),
                (Grant::Movement, "movement.shadowstep", (0, 0), [NONE, NONE]),
                (Grant::Recipe, "item.dead.shadow_cloak", (0, 0), [NONE, NONE]),
            ],
        ),
        (1, ["item.dead.shadow_cloak"]),
    ),
    (
        "tech.necro_4",
        "Lichdom",
        "Raise the hollow dead and mark the living for doom.",
        "Necromancy",
        3,
        4,
        (1, ["tech.necro_3"]),
        (
            3,
            [
                (Grant::Ability, "ability.dead.raise_dead", (0, 0), [NONE, NONE]),
                (Grant::Ability, "ability.dead.doom", (0, 0), [NONE, NONE]),
                (Grant::Budget, "", (5, 2), [NONE, NONE]),
            ],
        ),
        (1, ["item.dead.amulet_lich"]),
    ),
    (
        "tech.chrono_1",
        "Quickening",
        "Pull your own thread of time taut and fast.",
        "Chronomancy",
        0,
        2,
        (0, [""]),
        (1, [(Grant::Ability, "ability.chrono.haste", (0, 0), [NONE, NONE]), NO_EFFECT, NO_EFFECT]),
        (0, [""]),
    ),
    (
        "tech.chrono_2",
        "Mire of Ages",
        "Thicken time around your foes until they wade through it.",
        "Chronomancy",
        1,
        3,
        (1, ["tech.chrono_1"]),
        (
            2,
            [
                (Grant::Ability, "ability.chrono.stasis", (0, 0), [NONE, NONE]),
                (Grant::Recipe, "item.chrono.hourglass", (0, 0), [NONE, NONE]),
                NO_EFFECT,
            ],
        ),
        (1, ["item.chrono.hourglass"]),
    ),
    (
        "tech.chrono_3",
        "Echoes",
        "Strike from the next instant as well as this one.",
        "Chronomancy",
        2,
        4,
        (1, ["tech.chrono_2"]),
        (
            2,
            [
                (Grant::Ability, "ability.chrono.echo_strike", (0, 0), [NONE, NONE]),
                (Grant::Stats, "", (0, 0), [(Stat::CooldownReduction, 100), (Stat::Focus, 10_000)]),
                NO_EFFECT,
            ],
        ),
        (0, [""]),
    ),
    (
        "tech.radiant_1",
        "Kindled Light",
        "Call down a mote of cleansing sun.",
        "Radiance",
        0,
        2,
        (0, [""]),
        (
            1,
            [(Grant::Ability, "ability.radiant.smite", (0, 0), [NONE, NONE]), NO_EFFECT, NO_EFFECT],
        ),
        (0, [""]),
    ),
    (
        "tech.radiant_2",
        "Warden of Dawn",
        "Sanctify the ground and ward your allies in light.",
        "Radiance",
        1,
        3,
        (1, ["tech.radiant_1"]),
        (
            2,
            [
                (Grant::Ability, "ability.radiant.consecrate", (0, 0), [NONE, NONE]),
                (Grant::Ability, "ability.radiant.aegis", (0, 0), [NONE, NONE]),
                NO_EFFECT,
            ],
        ),
        (1, ["item.radiant.crown_dawn"]),
    ),
];

/// Organic, noise-driven surfaces.
pub const MATERIALS: [MaterialRow; 7] = [
    (
        "material.moss",
        "Living Moss",
        (
            2,
            [
                (NoiseKind::Fbm, 9_000, 1_000, 4, 2_000, 500, 700, 71),
                (NoiseKind::Worley, 14_000, 300, 2, 2_000, 500, 400, 72),
            ],
        ),
        [(0, [40, 140, 50, 1_000]), (600, [120, 340, 120, 1_000]), (1_000, [350, 600, 280, 1_000])],
        (850, 0, 200),
        [200, 550, 250],
        1_000,
        200,
        "shader.foliage",
    ),
    (
        "material.storm_cloud",
        "Storm Cloud",
        (1, [(NoiseKind::DomainWarp, 1_200, 1_000, 5, 2_100, 550, 1_000, 81), NO_LAYER]),
        [(0, [60, 70, 100, 1_000]), (600, [200, 220, 300, 1_000]), (1_000, [550, 600, 750, 1_000])],
        (900, 0, 500),
        [500, 600, 1_000],
        1_400,
        100,
        "shader.lightning",
    ),
    (
        "material.blood",
        "Clotted Blood",
        (1, [(NoiseKind::Flow, 3_000, 1_000, 4, 2_000, 550, 600, 91), NO_LAYER]),
        [(0, [120, 0, 0, 1_000]), (600, [450, 30, 40, 1_000]), (1_000, [750, 100, 120, 1_000])],
        (500, 0, 300),
        [600, 50, 50],
        700,
        200,
        "shader.surface_triplanar",
    ),
    (
        "material.obsidian",
        "Hollow Obsidian",
        (1, [(NoiseKind::Ridged, 6_000, 1_000, 5, 2_200, 500, 200, 101), NO_LAYER]),
        [(0, [20, 20, 40, 1_000]), (600, [80, 60, 120, 1_000]), (1_000, [220, 160, 300, 1_000])],
        (250, 200, 400),
        [400, 100, 500],
        800,
        400,
        "shader.dissolve",
    ),
    (
        "material.bone",
        "Bleached Bone",
        (
            2,
            [
                (NoiseKind::Fbm, 5_000, 1_000, 4, 2_000, 500, 300, 111),
                (NoiseKind::Worley, 10_000, 300, 2, 2_000, 500, 100, 112),
            ],
        ),
        [
            (0, [500, 480, 420, 1_000]),
            (600, [780, 740, 640, 1_000]),
            (1_000, [920, 900, 820, 1_000]),
        ],
        (800, 0, 0),
        [0, 0, 0],
        600,
        300,
        "shader.surface_triplanar",
    ),
    (
        "material.gilded",
        "Gilded Radiance",
        (1, [(NoiseKind::Ridged, 4_000, 1_000, 4, 2_000, 500, 150, 121), NO_LAYER]),
        [
            (0, [300, 220, 50, 1_000]),
            (600, [850, 650, 200, 1_000]),
            (1_000, [1_000, 950, 600, 1_000]),
        ],
        (200, 800, 1_200),
        [1_000, 850, 400],
        700,
        200,
        "shader.surface_triplanar",
    ),
    (
        "material.bog_water",
        "Bog Water",
        (1, [(NoiseKind::Flow, 2_000, 1_000, 3, 2_000, 500, 500, 131), NO_LAYER]),
        [(0, [40, 80, 50, 1_000]), (600, [100, 180, 120, 1_000]), (1_000, [200, 300, 220, 1_000])],
        (300, 0, 100),
        [100, 250, 150],
        1_200,
        50,
        "shader.water",
    ),
];

/// Shaders, recompiled on every content swap.
pub const SHADERS: [ShaderRow; 4] = [
    (
        "shader.foliage",
        "Wind-Swayed Foliage",
        ShaderStage::Surface,
        (2, [("sway_amount", 150), ("sway_speed", 1_200)]),
        "
// Foliage surface: a vertical sway driven by world position + time, with a
// subsurface-tinted wrapped-Lambert pass so leaves glow when back-lit.
fn sway(world_pos: vec3<f32>, time: f32, amount: f32, speed: f32) -> vec3<f32> {
    let phase = world_pos.x * 0.3 + world_pos.z * 0.27 + time * speed;
    return vec3<f32>(sin(phase) * amount, 0.0, cos(phase * 0.8) * amount);
}

fn shade_leaf(normal: vec3<f32>, light_dir: vec3<f32>, base: vec3<f32>) -> vec3<f32> {
    let n = normalize(normal);
    let ndl = clamp(dot(n, normalize(light_dir)), 0.0, 1.0);
    let back = clamp(dot(-n, normalize(light_dir)), 0.0, 1.0);
    let subsurface = base * vec3<f32>(0.3, 0.6, 0.25) * back;
    return base * (0.3 + 0.7 * ndl) + subsurface * 0.5;
}
",
    ),
    (
        "shader.lightning",
        "Arc Lightning",
        ShaderStage::Surface,
        (2, [("arc_freq", 8_000), ("flicker", 700)]),
        "
// Arc lightning surface: ridged noise threshold carves bright filaments that
// flicker over time; emissive output spikes along the arcs.
fn hashv(p: vec2<f32>) -> f32 {
    return fract(sin(dot(p, vec2<f32>(127.1, 311.7))) * 43758.5453);
}

fn arc(uv: vec2<f32>, time: f32, freq: f32, flicker: f32) -> f32 {
    let v = abs(sin((uv.x + hashv(floor(uv * freq))) * freq + time * 6.0));
    let mask = smoothstep(0.85, 1.0, 1.0 - v);
    let f = mix(1.0 - flicker, 1.0, hashv(vec2<f32>(floor(time * 20.0), 0.0)));
    return mask * f;
}
",
    ),
    (
        "shader.dissolve",
        "Void Dissolve",
        ShaderStage::Surface,
        (2, [("edge_width", 60), ("threshold", 500)]),
        "
// Dissolve surface: a noise field clips fragments below `threshold`, with a hot
// emissive rim along the dissolving edge — used for summons fading in/out and the
// hollow obsidian of the dead.
fn dissolve(noise: f32, threshold: f32, edge: f32) -> vec2<f32> {
    let alpha = step(threshold, noise);
    let rim = smoothstep(threshold, threshold + edge, noise) * (1.0 - alpha + edge);
    return vec2<f32>(alpha, clamp(rim, 0.0, 1.0));
}
",
    ),
    (
        "shader.bloom_post",
        "Radiant Bloom",
        ShaderStage::Fullscreen,
        (2, [("threshold", 800), ("intensity", 600)]),
        "
// Fullscreen bloom post: extract bright pixels above `threshold` and add a cheap
// boxed blur of them back, weighted by `intensity`. Gives emissive spells and
// gilded radiance their glow without per-light cost.
fn extract(color: vec3<f32>, threshold: f32) -> vec3<f32> {
    let luma = dot(color, vec3<f32>(0.2126, 0.7152, 0.0722));
    let k = max(luma - threshold, 0.0) / max(luma, 1e-4);
    return color * k;
}

fn composite(scene: vec3<f32>, blurred: vec3<f32>, intensity: f32) -> vec3<f32> {
    return scene + blurred * intensity;
}
",
    ),
];

/// Creatures and summons.
pub const MOBS: [MobRow; 10] = [
    (
        "mob.verdance.thornling",
        "Thornling",
        60_000,
        4_500,
        (1, ["ability.verdance.thornlash", "", ""]),
        25,
        (1, [("item.verdance.seed_pod", 500), ("", 0), ("", 0)]),
        "material.moss",
        800,
        true,
        0x8101,
    ),
    (
        "mob.verdance.treant",
        "Ancient Treant",
        320_000,
        2_600,
        (2, ["ability.verdance.entangle", "ability.verdance.thornlash", ""]),
        130,
        (2, [("item.verdance.heartwood", 400), ("item.crystal_shard", 500), ("", 0)]),
        "material.moss",
        3_200,
        false,
        0x8102,
    ),
    (
        "mob.verdance.grove_warden",
        "Grove Warden",
        480_000,
        3_000,
        (
            3,
            ["ability.verdance.entangle", "ability.verdance.grove", "ability.verdance.spore_burst"],
        ),
        320,
        (2, [("item.verdance.heartwood", 900), ("item.verdance.staff_thorn", 60), ("", 0)]),
        "material.moss",
        3_800,
        true,
        0x8103,
    ),
    (
        "mob.storm.elemental",
        "Storm Elemental",
        150_000,
        5_000,
        (2, ["ability.storm.spark", "ability.storm.ball_lightning", ""]),
        95,
        (1, [("item.storm.charged_core", 500), ("", 0), ("", 0)]),
        "material.storm_cloud",
        1_800,
        true,
        0x8201,
    ),
    (
        "mob.storm.djinn",
        "Tempest Djinn",
        620_000,
        6_000,
        (3, ["ability.storm.tempest", "ability.storm.thunderclap", "ability.storm.ball_lightning"]),
        420,
        (2, [("item.storm.charged_core", 1_000), ("item.storm.ring_tempest", 70), ("", 0)]),
        "material.storm_cloud",
        3_500,
        true,
        0x8202,
    ),
    (
        "mob.dead.risen_husk",
        "Risen Husk",
        70_000,
        3_200,
        (1, ["ability.dead.hemorrhage", "", ""]),
        20,
        (1, [("item.dead.bone_dust", 600), ("", 0), ("", 0)]),
        "material.bone",
        1_000,
        true,
        0x8301,
    ),
    (
        "mob.dead.shade",
        "Wailing Shade",
        110_000,
        5_500,
        (2, ["ability.dead.shadow_bolt", "ability.dead.curse_of_silence", ""]),
        80,
        (1, [("item.dead.shadow_silk", 500), ("", 0), ("", 0)]),
        "material.obsidian",
        1_400,
        true,
        0x8302,
    ),
    (
        "mob.dead.blood_acolyte",
        "Blood Acolyte",
        180_000,
        4_000,
        (2, ["ability.dead.hemorrhage", "ability.dead.harvest", ""]),
        120,
        (2, [("item.dead.shadow_silk", 400), ("item.void_essence", 300), ("", 0)]),
        "material.blood",
        1_600,
        true,
        0x8303,
    ),
    (
        "mob.dead.bone_colossus",
        "Bone Colossus",
        1_400_000,
        2_400,
        (3, ["ability.dead.doom", "ability.dead.raise_dead", "ability.dead.shadow_bolt"]),
        900,
        (
            3,
            [
                ("item.dead.bone_dust", 1_000),
                ("item.dead.amulet_lich", 50),
                ("item.void_relic", 80),
            ],
        ),
        "material.bone",
        5_000,
        true,
        0x8304,
    ),
    (
        "mob.radiant.seraph",
        "Lesser Seraph",
        260_000,
        5_500,
        (2, ["ability.radiant.smite", "ability.radiant.aegis", ""]),
        200,
        (1, [("item.radiant.gilded_feather", 700), ("", 0), ("", 0)]),
        "material.gilded",
        2_000,
        false,
        0x8401,
    ),
];

/// Missions.
pub const MISSIONS: [MissionRow; 5] = [
    (
        "mission.green_tide",
        "The Green Tide",
        "The mire is rising. Cull the thornlings before they overrun the lowland paths.",
        (
            2,
            [
                (Goal::Kill, "mob.verdance.thornling", 8, 0, [0, 0, 0]),
                (Goal::Collect, "item.verdance.seed_pod", 5, 0, [0, 0, 0]),
                NO_GOAL,
            ],
        ),
        180,
        (1, [("item.verdance.vinecaster", 1)]),
        2,
        3,
        true,
    ),
    (
        "mission.storm_chaser",
        "Storm Chaser",
        "Lightning has woken something in the peaks. Hunt the storm elementals and learn their charge.",
        (
            2,
            [
                (Goal::Kill, "mob.storm.elemental", 6, 0, [0, 0, 0]),
                (Goal::CastSpell, "spell.storm.spark", 15, 0, [0, 0, 0]),
                NO_GOAL,
            ],
        ),
        240,
        (1, [("item.storm.charged_core", 4)]),
        3,
        6,
        true,
    ),
    (
        "mission.the_hollow_dead",
        "The Hollow Dead",
        "Something old stirs the bones of the deep barrows. Descend, endure, and find what raises them.",
        (
            3,
            [
                (Goal::Survive, "", 0, 240_000, [0, 0, 0]),
                (Goal::Kill, "mob.dead.shade", 5, 0, [0, 0, 0]),
                (Goal::Explore, "", 3, 0, [0, 0, 0]),
            ],
        ),
        400,
        (1, [("item.dead.shadow_silk", 6)]),
        4,
        12,
        false,
    ),
    (
        "mission.slay_colossus",
        "Bane of the Barrow-King",
        "The Bone Colossus walks. End it, and the dead of the barrows may finally rest.",
        (1, [(Goal::Kill, "mob.dead.bone_colossus", 1, 0, [0, 0, 0]), NO_GOAL, NO_GOAL]),
        1200,
        (1, [("item.dead.amulet_lich", 1)]),
        6,
        20,
        false,
    ),
    (
        "mission.djinn_of_the_peaks",
        "The Djinn of the Peaks",
        "A Tempest Djinn has claimed the high stormpeaks. Climb to it and break the storm it rides.",
        (
            2,
            [
                (Goal::ReachPoint, "", 0, 25_000, [-640_000, 180_000, 700_000]),
                (Goal::Kill, "mob.storm.djinn", 1, 0, [0, 0, 0]),
                NO_GOAL,
            ],
        ),
        900,
        (1, [("item.storm.ring_tempest", 1)]),
        5,
        18,
        false,
    ),
];

/// Loot pools for the new schools and bosses.
pub const LOOT_TABLES: [LootRow; 5] = [
    (
        "loot.verdance",
        "Verdant Drops",
        (
            4,
            [
                ("item.verdance.seed_pod", 6_000, 1, 3, 0),
                ("item.verdance.heartwood", 3_000, 1, 2, 100),
                ("item.consume.vigor_elixir", 1_500, 1, 1, 100),
                ("item.verdance.staff_thorn", 200, 1, 1, 400),
                NO_ENTRY,
                NO_ENTRY,
            ],
        ),
        2,
        150,
    ),
    (
        "loot.storm",
        "Storm Drops",
        (
            3,
            [
                ("item.storm.charged_core", 6_000, 1, 3, 0),
                ("item.storm.windsoles", 500, 1, 1, 300),
                ("item.storm.staff_tempest", 300, 1, 1, 400),
                NO_ENTRY,
                NO_ENTRY,
                NO_ENTRY,
            ],
        ),
        2,
        200,
    ),
    (
        "loot.dead",
        "Grave Drops",
        (
            4,
            [
                ("item.dead.bone_dust", 7_000, 1, 4, 0),
                ("item.dead.shadow_silk", 3_000, 1, 2, 200),
                ("item.consume.smoke_phial", 1_000, 1, 1, 100),
                ("item.dead.scepter_grave", 150, 1, 1, 500),
                NO_ENTRY,
                NO_ENTRY,
            ],
        ),
        2,
        250,
    ),
    (
        "loot.boss_colossus",
        "Barrow-King's Hoard",
        (
            6,
            [
                ("item.dead.bone_dust", 8_000, 6, 12, 0),
                ("item.dead.shadow_silk", 5_000, 3, 6, 0),
                ("item.void_essence", 4_000, 2, 4, 0),
                ("item.dead.scepter_grave", 1_000, 1, 1, 500),
                ("item.dead.amulet_lich", 200, 1, 1, 700),
                ("item.void_relic", 250, 1, 1, 600),
            ],
        ),
        4,
        400,
    ),
    (
        "loot.boss_djinn",
        "Djinn's Spoils",
        (
            4,
            [
                ("item.storm.charged_core", 8_000, 4, 8, 0),
                ("item.crystal_shard", 5_000, 3, 6, 0),
                ("item.storm.staff_tempest", 1_200, 1, 1, 400),
                ("item.storm.ring_tempest", 800, 1, 1, 500),
                NO_ENTRY,
                NO_ENTRY,
            ],
        ),
        3,
        350,
    ),
];

/// Spawn rules for the two new biomes and the bosses.
pub const SPAWN_RULES: [SpawnRow; 7] = [
    (
        "spawn.mire_thornlings",
        "Mire Thornlings",
        "mob.verdance.thornling",
        (Arrival::Continuous, 0, 7_000),
        30,
        (2, ["mire", "forest"]),
        120,
        "loot.verdance",
    ),
    (
        "spawn.mire_warden",
        "Grove Warden",
        "mob.verdance.grove_warden",
        (Arrival::OnObjective, 0, 0),
        1,
        (1, ["mire", ""]),
        300,
        "loot.boss",
    ),
    (
        "spawn.stormpeak_elementals",
        "Stormpeak Elementals",
        "mob.storm.elemental",
        (Arrival::Continuous, 0, 20_000),
        12,
        (2, ["stormpeaks", "highlands"]),
        250,
        "loot.storm",
    ),
    (
        "spawn.stormpeak_djinn",
        "Tempest Djinn",
        "mob.storm.djinn",
        (Arrival::OnObjective, 0, 0),
        1,
        (1, ["stormpeaks", ""]),
        400,
        "loot.boss_djinn",
    ),
    (
        "spawn.barrow_dead",
        "Barrow Dead",
        "mob.dead.risen_husk",
        (Arrival::Wave, 8, 30_000),
        40,
        (2, ["hollows", "mire"]),
        200,
        "loot.dead",
    ),
    (
        "spawn.barrow_shades",
        "Wailing Shades",
        "mob.dead.shade",
        (Arrival::Continuous, 0, 25_000),
        14,
        (1, ["hollows", ""]),
        280,
        "loot.dead",
    ),
    (
        "spawn.barrow_colossus",
        "The Bone Colossus",
        "mob.dead.bone_colossus",
        (Arrival::OnObjective, 0, 0),
        1,
        (1, ["hollows", ""]),
        500,
        "loot.boss_colossus",
    ),
];

/// Combo synergies, weather and boss-arrival drama.
pub const TRIGGERS: [TriggerRow; 6] = [
    (
        "trigger.storm_conduct",
        "Conduction",
        (Event::SpellCast, "spell.storm.spark", 0),
        (1, [(Need::Chance, "", 0, 400), NO_NEED]),
        (1, [(Act::ApplyStatus, "status.conductive", 0, 4_000), NO_ACT]),
        false,
    ),
    (
        "trigger.verdant_bloom",
        "Verdant Bloom",
        (Event::Kill, "", 0),
        (2, [(Need::InBiome, "mire", 0, 0), (Need::Chance, "", 0, 350)]),
        (1, [(Act::GrantItem, "item.verdance.seed_pod", 1, 0), NO_ACT]),
        false,
    ),
    (
        "trigger.restless_dead",
        "Restless Dead",
        (Event::Death, "", 0),
        (2, [(Need::InBiome, "hollows", 0, 0), (Need::Chance, "", 0, 500)]),
        (
            2,
            [
                (Act::SpawnMob, "mob.dead.risen_husk", 1, 0),
                (Act::Broadcast, "The barrows do not forgive the fallen...", 0, 0),
            ],
        ),
        false,
    ),
    (
        "trigger.rolling_storm",
        "Rolling Storm",
        (Event::Timer, "", 120_000),
        (1, [(Need::InBiome, "stormpeaks", 0, 0), NO_NEED]),
        (
            2,
            [
                (Act::ApplyStatus, "status.static_charge", 0, 6_000),
                (Act::Broadcast, "Thunder rolls across the peaks.", 0, 0),
            ],
        ),
        false,
    ),
    (
        "trigger.colossus_wakes",
        "The Colossus Wakes",
        (Event::ZoneEnter, "barrow", 0),
        (1, [(Need::MinLevel, "", 18, 0), NO_NEED]),
        (
            2,
            [
                (Act::SpawnMob, "mob.dead.bone_colossus", 1, 0),
                (Act::Broadcast, "The ground splits. The Barrow-King rises.", 0, 0),
            ],
        ),
        true,
    ),
    (
        "trigger.seraph_blessing",
        "Seraph's Blessing",
        (Event::Kill, "", 0),
        (2, [(Need::HasTech, "tech.radiant_1", 0, 0), (Need::Chance, "", 0, 200)]),
        (
            2,
            [
                (Act::ApplyStatus, "status.sanctified", 0, 8_000),
                (Act::GrantItem, "item.radiant.gilded_feather", 1, 0),
            ],
        ),
        false,
    ),
];

/// Two new ways to play.
pub const GAME_MODES: [ModeRow; 2] = [
    (
        "gamemode.survival_horde",
        "Survival Horde",
        "Stand against escalating waves of the hollow dead. Last until the dawn bell tolls.",
        (1, false),
        (Win::TimeLimit, 900_000),
        (2, [(Score::Kill, 1), (Score::Assist, 1)]),
        12_000,
        (true, 1_500),
        (2, ["ability.fireball", "ability.radiant.smite"]),
        (2, [("item.mana_crystal", 5), ("item.consume.vigor_elixir", 2)]),
        (false, true),
    ),
    (
        "gamemode.relic_royale",
        "Relic Royale",
        "A shrinking arena, full loot, no respawns. The last mage holding a relic wins.",
        (0, false),
        (Win::LastTeamStanding, 0),
        (2, [(Score::Kill, 2), (Score::FirstBlood, 3)]),
        9_999_000,
        (true, 2_000),
        (1, ["ability.fireball", ""]),
        (1, [("item.mana_crystal", 2), ("", 0)]),
        (true, false),
    ),
];

/// Two new biomes.
pub const BIOMES: [BiomeRow; 2] = [
    (
        "The Mire",
        420,
        550,
        "material.moss",
        [200, 280, 180],
        (
            3,
            [
                ("mob.verdance.thornling", 2_000),
                ("mob.verdance.treant", 500),
                ("mob.dead.risen_husk", 1_000),
            ],
        ),
    ),
    (
        "The Stormpeaks",
        850,
        1_000,
        "material.storm_cloud",
        [300, 320, 420],
        (2, [("mob.storm.elemental", 2_000), ("mob.radiant.seraph", 400), ("", 0)]),
    ),
];

/// Their structures.
pub const STRUCTURES: [StructureRow; 3] = [
    ("The Barrow", 12, "mob.dead.bone_colossus", 7_000, 0x5801),
    ("Lightning Spire", 20, "mob.storm.djinn", 5_000, 0x5802),
    ("Overgrown Shrine", 35, "mob.verdance.grove_warden", 3_000, 0x5803),
];

/// The statuses that spells may apply.
pub open spec fn known_statuses() -> Set<Seq<char>> {
    status_names(STATUSES@).insert("status.invisible"@)
}

pub open spec fn spark_op() -> Op {
    Op::ray(
        30_000,
        0,
        Op::both(Op::damage(28_000, "storm"@), Op::afflict("status.static_charge"@, 5_000, 1)),
    )
}

pub open spec fn thunderclap_op() -> Op {
    Op::area(
        6_000,
        Faction::Enemies,
        400,
        Op::all_three(
            Op::damage(45_000, "storm"@),
            Op::impulse(16_000, 300),
            Op::afflict("status.silenced"@, 1_500, 1),
        ),
    )
}

pub open spec fn gale_step_op() -> Op {
    Op::both(
        Op::teleport(10_000, false),
        Op::area(5_000, Faction::Allies, 1_000, Op::afflict("status.windswept"@, 5_000, 1)),
    )
}

pub open spec fn tempest_op() -> Op {
    Op::field(
        8_000,
        8_000,
        500,
        Faction::Enemies,
        Op::all_three(
            Op::damage(12_000, "storm"@),
            Op::perhaps(250, Op::afflict("status.levitating"@, 1_500, 1)),
            Op::afflict("status.static_charge"@, 3_000, 1),
        ),
    )
}

pub open spec fn ball_lightning_op() -> Op {
    Op::projectile(
        18_000,
        0,
        600,
        5_000,
        700,
        Op::area(5_000, Faction::Enemies, 300, Op::repeat(3, 100, Op::damage(22_000, "storm"@))),
    )
}

pub open spec fn thornlash_op() -> Op {
    Op::ray(
        18_000,
        1,
        Op::both(Op::damage(32_000, "nature"@), Op::afflict("status.poisoned"@, 6_000, 2)),
    )
}

pub open spec fn entangle_op() -> Op {
    Op::area(
        5_000,
        Faction::Enemies,
        1_000,
        Op::both(Op::afflict("status.entangled"@, 3_000, 1), Op::damage(18_000, "nature"@)),
    )
}

pub open spec fn thornmail_op() -> Op {
    Op::both(Op::shield(60_000, 8_000), Op::afflict("status.thornmail"@, 8_000, 1))
}

pub open spec fn grove_op() -> Op {
    Op::field(
        6_000,
        8_000,
        1_000,
        Faction::Allies,
        Op::both(Op::heal(18_000), Op::afflict("status.overgrown"@, 2_000, 1)),
    )
}

pub open spec fn spore_burst_op() -> Op {
    Op::projectile(
        24_000,
        4_000,
        500,
        4_000,
        0,
        Op::field(4_000, 5_000, 750, Faction::Enemies, Op::afflict("status.poisoned"@, 3_000, 1)),
    )
}

pub open spec fn summon_treant_op() -> Op {
    Op::summon("mob.verdance.treant"@, 1, 40_000)
}

pub open spec fn shadow_bolt_op() -> Op {
    Op::projectile(
        38_000,
        0,
        350,
        3_000,
        200,
        Op::both(Op::damage(42_000, "shadow"@), Op::afflict("status.soul_burn"@, 6_000, 1)),
    )
}

pub open spec fn hemorrhage_op() -> Op {
    Op::ray(
        22_000,
        0,
        Op::both(Op::damage(30_000, "blood"@), Op::afflict("status.bleeding"@, 5_000, 2)),
    )
}

pub open spec fn curse_of_silence_op() -> Op {
    Op::ray(
        25_000,
        0,
        Op::all_three(
            Op::afflict("status.cursed"@, 6_000, 1),
            Op::afflict("status.silenced"@, 2_500, 1),
            Op::afflict("status.withered"@, 6_000, 1),
        ),
    )
}

pub open spec fn harvest_op() -> Op {
    Op::cone(
        8_000,
        700,
        Faction::Enemies,
        Op::both(Op::damage(16_000, "blood"@), Op::heal(9_000)),
    )
}

pub open spec fn raise_dead_op() -> Op {
    Op::summon("mob.dead.risen_husk"@, 2, 35_000)
}

pub open spec fn doom_op() -> Op {
    Op::ray(
        30_000,
        0,
        Op::both(
            Op::mark("doom"@, 4_000),
            Op::delay(
                4_000,
                Op::if_marked(
                    "doom"@,
                    Op::area(5_000, Faction::Enemies, 500, Op::damage(140_000, "shadow"@)),
                    Op::noop(),
                ),
            ),
        ),
    )
}

pub open spec fn haste_op() -> Op {
    Op::afflict("status.timewarp"@, 5_000, 1)
}

pub open spec fn stasis_op() -> Op {
    Op::area(5_000, Faction::Enemies, 1_000, Op::afflict("status.timelock"@, 3_000, 1))
}

pub open spec fn echo_strike_op() -> Op {
    Op::ray(28_000, 0, Op::repeat(3, 250, Op::damage(34_000, "chrono"@)))
}

pub open spec fn smite_op() -> Op {
    Op::projectile(60_000, 0, 500, 2_000, 300, Op::damage(58_000, "radiant"@))
}

pub open spec fn consecrate_op() -> Op {
    Op::at_once(
        Op::field(
            6_000,
            8_000,
            1_000,
            Faction::Allies,
            Op::afflict("status.sanctified"@, 2_000, 1),
        ),
        Op::field(6_000, 8_000, 500, Faction::Enemies, Op::damage(14_000, "radiant"@)),
    )
}

pub open spec fn aegis_op() -> Op {
    Op::both(Op::shield(100_000, 7_000), Op::afflict("status.radiant_ward"@, 7_000, 1))
}

pub open spec fn elixir_vigor_op() -> Op {
    Op::both(Op::heal(120_000), Op::afflict("status.overgrown"@, 4_000, 1))
}

pub open spec fn smoke_bomb_op() -> Op {
    Op::afflict("status.invisible"@, 5_000, 1)
}

/// The effects of the spell at `i` of the table.
#[verifier::opaque]
pub open spec fn spell_op(i: int) -> Op {
    if i == 0 {
        spark_op()
    } else if i == 1 {
        thunderclap_op()
    } else if i == 2 {
        gale_step_op()
    } else if i == 3 {
        tempest_op()
    } else if i == 4 {
        ball_lightning_op()
    } else if i == 5 {
        thornlash_op()
    } else if i == 6 {
        entangle_op()
    } else if i == 7 {
        thornmail_op()
    } else if i == 8 {
        grove_op()
    } else if i == 9 {
        spore_burst_op()
    } else if i == 10 {
        summon_treant_op()
    } else if i == 11 {
        shadow_bolt_op()
    } else if i == 12 {
        hemorrhage_op()
    } else if i == 13 {
        curse_of_silence_op()
    } else if i == 14 {
        harvest_op()
    } else if i == 15 {
        raise_dead_op()
    } else if i == 16 {
        doom_op()
    } else if i == 17 {
        haste_op()
    } else if i == 18 {
        stasis_op()
    } else if i == 19 {
        echo_strike_op()
    } else if i == 20 {
        smite_op()
    } else if i == 21 {
        consecrate_op()
    } else if i == 22 {
        aegis_op()
    } else if i == 23 {
        elixir_vigor_op()
    } else if i == 24 {
        smoke_bomb_op()
    } else {
        Op::Noop
    }
}

fn spark() -> (d: SpellDef)
    ensures
        written(d, SPELLS@[0], spell_op(0), known_statuses()),
{
    let root = ray(30_000, 0, both(damage(28_000, "storm"), afflict("status.static_charge", 5_000, 1)));
    proof {
        assert(applied(root) =~= set!["status.static_charge"@]);
        assert(STATUSES@[4].0@ == "status.static_charge"@);
        reveal(written);
        reveal(spell_op);
    }
    let rows = SPELLS;
    spell(rows[0], root)
}

fn thunderclap() -> (d: SpellDef)
    ensures
        written(d, SPELLS@[1], spell_op(1), known_statuses()),
{
    let root = area(
        6_000,
        Faction::Enemies,
        400,
        all_three(
            damage(45_000, "storm"),
            impulse(16_000, 300),
            afflict("status.silenced", 1_500, 1),
        ),
    );
    proof {
        assert(applied(root) =~= set!["status.silenced"@]);
        assert(STATUSES@[11].0@ == "status.silenced"@);
        reveal(written);
        reveal(spell_op);
    }
    let rows = SPELLS;
    spell(rows[1], root)
}

fn gale_step() -> (d: SpellDef)
    ensures
        written(d, SPELLS@[2], spell_op(2), known_statuses()),
{
    let root = both(
        teleport(10_000, false),
        area(5_000, Faction::Allies, 1_000, afflict("status.windswept", 5_000, 1)),
    );
    proof {
        assert(applied(root) =~= set!["status.windswept"@]);
        assert(STATUSES@[6].0@ == "status.windswept"@);
        reveal(written);
        reveal(spell_op);
    }
    let rows = SPELLS;
    spell(rows[2], root)
}

fn tempest() -> (d: SpellDef)
    ensures
        written(d, SPELLS@[3], spell_op(3), known_statuses()),
{
    let root = field(
        8_000,
        8_000,
        500,
        Faction::Enemies,
        all_three(
            damage(12_000, "storm"),
            perhaps(250, afflict("status.levitating", 1_500, 1)),
            afflict("status.static_charge", 3_000, 1),
        ),
    );
    proof {
        assert(applied(root) =~= set!["status.levitating"@, "status.static_charge"@]);
        assert(STATUSES@[7].0@ == "status.levitating"@);
        assert(STATUSES@[4].0@ == "status.static_charge"@);
        reveal(written);
        reveal(spell_op);
    }
    let rows = SPELLS;
    spell(rows[3], root)
}

fn ball_lightning() -> (d: SpellDef)
    ensures
        written(d, SPELLS@[4], spell_op(4), known_statuses()),
{
    let root = projectile(
        18_000,
        0,
        600,
        5_000,
        700,
        area(5_000, Faction::Enemies, 300, repeat(3, 100, damage(22_000, "storm"))),
    );
    proof {
        assert(applied(root) =~= Set::<Seq<char>>::empty());
        reveal(written);
        reveal(spell_op);
    }
    let rows = SPELLS;
    spell(rows[4], root)
}

fn thornlash() -> (d: SpellDef)
    ensures
        written(d, SPELLS@[5], spell_op(5), known_statuses()),
{
    let root = ray(18_000, 1, both(damage(32_000, "nature"), afflict("status.poisoned", 6_000, 2)));
    proof {
        assert(applied(root) =~= set!["status.poisoned"@]);
        assert(STATUSES@[0].0@ == "status.poisoned"@);
        reveal(written);
        reveal(spell_op);
    }
    let rows = SPELLS;
    spell(rows[5], root)
}

fn entangle() -> (d: SpellDef)
    ensures
        written(d, SPELLS@[6], spell_op(6), known_statuses()),
{
    let root = area(
        5_000,
        Faction::Enemies,
        1_000,
        both(afflict("status.entangled", 3_000, 1), damage(18_000, "nature")),
    );
    proof {
        assert(applied(root) =~= set!["status.entangled"@]);
        assert(STATUSES@[1].0@ == "status.entangled"@);
        reveal(written);
        reveal(spell_op);
    }
    let rows = SPELLS;
    spell(rows[6], root)
}

fn thornmail() -> (d: SpellDef)
    ensures
        written(d, SPELLS@[7], spell_op(7), known_statuses()),
{
    let root = both(shield(60_000, 8_000), afflict("status.thornmail", 8_000, 1));
    proof {
        assert(applied(root) =~= set!["status.thornmail"@]);
        assert(STATUSES@[2].0@ == "status.thornmail"@);
        reveal(written);
        reveal(spell_op);
    }
    let rows = SPELLS;
    spell(rows[7], root)
}

fn grove() -> (d: SpellDef)
    ensures
        written(d, SPELLS@[8], spell_op(8), known_statuses()),
{
    let root = field(
        6_000,
        8_000,
        1_000,
        Faction::Allies,
        both(heal(18_000), afflict("status.overgrown", 2_000, 1)),
    );
    proof {
        assert(applied(root) =~= set!["status.overgrown"@]);
        assert(STATUSES@[3].0@ == "status.overgrown"@);
        reveal(written);
        reveal(spell_op);
    }
    let rows = SPELLS;
    spell(rows[8], root)
}

fn spore_burst() -> (d: SpellDef)
    ensures
        written(d, SPELLS@[9], spell_op(9), known_statuses()),
{
    let root = projectile(
        24_000,
        4_000,
        500,
        4_000,
        0,
        field(4_000, 5_000, 750, Faction::Enemies, afflict("status.poisoned", 3_000, 1)),
    );
    proof {
        assert(applied(root) =~= set!["status.poisoned"@]);
        assert(STATUSES@[0].0@ == "status.poisoned"@);
        reveal(written);
        reveal(spell_op);
    }
    let rows = SPELLS;
    spell(rows[9], root)
}

fn summon_treant() -> (d: SpellDef)
    ensures
        written(d, SPELLS@[10], spell_op(10), known_statuses()),
{
    let root = summon("mob.verdance.treant", 1, 40_000);
    proof {
        assert(applied(root) =~= Set::<Seq<char>>::empty());
        reveal(written);
        reveal(spell_op);
    }
    let rows = SPELLS;
    spell(rows[10], root)
}

fn shadow_bolt() -> (d: SpellDef)
    ensures
        written(d, SPELLS@[11], spell_op(11), known_statuses()),
{
    let root = projectile(
        38_000,
        0,
        350,
        3_000,
        200,
        both(damage(42_000, "shadow"), afflict("status.soul_burn", 6_000, 1)),
    );
    proof {
        assert(applied(root) =~= set!["status.soul_burn"@]);
        assert(STATUSES@[9].0@ == "status.soul_burn"@);
        reveal(written);
        reveal(spell_op);
    }
    let rows = SPELLS;
    spell(rows[11], root)
}

fn hemorrhage() -> (d: SpellDef)
    ensures
        written(d, SPELLS@[12], spell_op(12), known_statuses()),
{
    let root = ray(22_000, 0, both(damage(30_000, "blood"), afflict("status.bleeding", 5_000, 2)));
    proof {
        assert(applied(root) =~= set!["status.bleeding"@]);
        assert(STATUSES@[8].0@ == "status.bleeding"@);
        reveal(written);
        reveal(spell_op);
    }
    let rows = SPELLS;
    spell(rows[12], root)
}

fn curse_of_silence() -> (d: SpellDef)
    ensures
        written(d, SPELLS@[13], spell_op(13), known_statuses()),
{
    let root = ray(
        25_000,
        0,
        all_three(
            afflict("status.cursed", 6_000, 1),
            afflict("status.silenced", 2_500, 1),
            afflict("status.withered", 6_000, 1),
        ),
    );
    proof {
        assert(applied(root) =~= set!["status.cursed"@, "status.silenced"@, "status.withered"@]);
        assert(STATUSES@[10].0@ == "status.cursed"@);
        assert(STATUSES@[11].0@ == "status.silenced"@);
        assert(STATUSES@[12].0@ == "status.withered"@);
        reveal(written);
        reveal(spell_op);
    }
    let rows = SPELLS;
    spell(rows[13], root)
}

fn harvest() -> (d: SpellDef)
    ensures
        written(d, SPELLS@[14], spell_op(14), known_statuses()),
{
    let root = cone(8_000, 700, Faction::Enemies, both(damage(16_000, "blood"), heal(9_000)));
    proof {
        assert(applied(root) =~= Set::<Seq<char>>::empty());
        reveal(written);
        reveal(spell_op);
    }
    let rows = SPELLS;
    spell(rows[14], root)
}

fn raise_dead() -> (d: SpellDef)
    ensures
        written(d, SPELLS@[15], spell_op(15), known_statuses()),
{
    let root = summon("mob.dead.risen_husk", 2, 35_000);
    proof {
        assert(applied(root) =~= Set::<Seq<char>>::empty());
        reveal(written);
        reveal(spell_op);
    }
    let rows = SPELLS;
    spell(rows[15], root)
}

fn doom() -> (d: SpellDef)
    ensures
        written(d, SPELLS@[16], spell_op(16), known_statuses()),
{
    let root = ray(
        30_000,
        0,
        both(
            mark("doom", 4_000),
            delay(
                4_000,
                if_marked(
                    "doom",
                    area(5_000, Faction::Enemies, 500, damage(140_000, "shadow")),
                    noop(),
                ),
            ),
        ),
    );
    proof {
        assert(applied(root) =~= Set::<Seq<char>>::empty());
        reveal(written);
        reveal(spell_op);
    }
    let rows = SPELLS;
    spell(rows[16], root)
}

fn haste() -> (d: SpellDef)
    ensures
        written(d, SPELLS@[17], spell_op(17), known_statuses()),
{
    let root = afflict("status.timewarp", 5_000, 1);
    proof {
        assert(applied(root) =~= set!["status.timewarp"@]);
        assert(STATUSES@[14].0@ == "status.timewarp"@);
        reveal(written);
        reveal(spell_op);
    }
    let rows = SPELLS;
    spell(rows[17], root)
}

fn stasis() -> (d: SpellDef)
    ensures
        written(d, SPELLS@[18], spell_op(18), known_statuses()),
{
    let root = area(5_000, Faction::Enemies, 1_000, afflict("status.timelock", 3_000, 1));
    proof {
        assert(applied(root) =~= set!["status.timelock"@]);
        assert(STATUSES@[15].0@ == "status.timelock"@);
        reveal(written);
        reveal(spell_op);
    }
    let rows = SPELLS;
    spell(rows[18], root)
}

fn echo_strike() -> (d: SpellDef)
    ensures
        written(d, SPELLS@[19], spell_op(19), known_statuses()),
{
    let root = ray(28_000, 0, repeat(3, 250, damage(34_000, "chrono")));
    proof {
        assert(applied(root) =~= Set::<Seq<char>>::empty());
        reveal(written);
        reveal(spell_op);
    }
    let rows = SPELLS;
    spell(rows[19], root)
}

fn smite() -> (d: SpellDef)
    ensures
        written(d, SPELLS@[20], spell_op(20), known_statuses()),
{
    let root = projectile(60_000, 0, 500, 2_000, 300, damage(58_000, "radiant"));
    proof {
        assert(applied(root) =~= Set::<Seq<char>>::empty());
        reveal(written);
        reveal(spell_op);
    }
    let rows = SPELLS;
    spell(rows[20], root)
}

fn consecrate() -> (d: SpellDef)
    ensures
        written(d, SPELLS@[21], spell_op(21), known_statuses()),
{
    let root = at_once(
        field(6_000, 8_000, 1_000, Faction::Allies, afflict("status.sanctified", 2_000, 1)),
        field(6_000, 8_000, 500, Faction::Enemies, damage(14_000, "radiant")),
    );
    proof {
        assert(applied(root) =~= set!["status.sanctified"@]);
        assert(STATUSES@[16].0@ == "status.sanctified"@);
        reveal(written);
        reveal(spell_op);
    }
    let rows = SPELLS;
    spell(rows[21], root)
}

fn aegis() -> (d: SpellDef)
    ensures
        written(d, SPELLS@[22], spell_op(22), known_statuses()),
{
    let root = both(shield(100_000, 7_000), afflict("status.radiant_ward", 7_000, 1));
    proof {
        assert(applied(root) =~= set!["status.radiant_ward"@]);
        assert(STATUSES@[17].0@ == "status.radiant_ward"@);
        reveal(written);
        reveal(spell_op);
    }
    let rows = SPELLS;
    spell(rows[22], root)
}

fn elixir_vigor() -> (d: SpellDef)
    ensures
        written(d, SPELLS@[23], spell_op(23), known_statuses()),
{
    let root = both(heal(120_000), afflict("status.overgrown", 4_000, 1));
    proof {
        assert(applied(root) =~= set!["status.overgrown"@]);
        assert(STATUSES@[3].0@ == "status.overgrown"@);
        reveal(written);
        reveal(spell_op);
    }
    let rows = SPELLS;
    spell(rows[23], root)
}

fn smoke_bomb() -> (d: SpellDef)
    ensures
        written(d, SPELLS@[24], spell_op(24), known_statuses()),
{
    let root = afflict("status.invisible", 5_000, 1);
    proof {
        assert(applied(root) =~= set!["status.invisible"@]);
        assert(known_statuses().contains("status.invisible"@));
        reveal(written);
        reveal(spell_op);
    }
    let rows = SPELLS;
    spell(rows[24], root)
}

/// The list holds the first spells of the table.
#[verifier::opaque]
spec fn learnt(list: Seq<SpellDef>) -> bool {
    forall|i: int|
        0 <= i < list.len() ==> #[trigger] written(
            list[i],
            SPELLS@[i],
            spell_op(i),
            known_statuses(),
        )
}

fn learn(list: &mut Vec<SpellDef>, d: SpellDef)
    requires
        learnt(old(list)@),
        written(
            d,
            SPELLS@[old(list)@.len() as int],
            spell_op(old(list)@.len() as int),
            known_statuses(),
        ),
    ensures
        learnt(final(list)@),
        final(list)@.len() == old(list)@.len() + 1,
{
    let ghost before = list@;
    list.push(d);
    proof {
        reveal(learnt);
        assert forall|i: int| 0 <= i < list@.len() implies #[trigger] written(
            list@[i],
            SPELLS@[i],
            spell_op(i),
            known_statuses(),
        ) by {
            if i < before.len() {
                assert(written(before[i], SPELLS@[i], spell_op(i), known_statuses()));
            }
        }
    }
}

/// The spells, each with the effects at its place. The statuses that they apply are all in
/// the tables.
pub fn spells() -> (r: Vec<SpellDef>)
    ensures
        are_spells(r@, SPELLS@, |i: int| spell_op(i)),
        applies_known(r@, known_statuses()),
{
    let mut list: Vec<SpellDef> = Vec::new();
    assert(learnt(list@)) by {
        reveal(learnt);
    }
    learn(&mut list, spark());
    learn(&mut list, thunderclap());
    learn(&mut list, gale_step());
    learn(&mut list, tempest());
    learn(&mut list, ball_lightning());
    learn(&mut list, thornlash());
    learn(&mut list, entangle());
    learn(&mut list, thornmail());
    learn(&mut list, grove());
    learn(&mut list, spore_burst());
    learn(&mut list, summon_treant());
    learn(&mut list, shadow_bolt());
    learn(&mut list, hemorrhage());
    learn(&mut list, curse_of_silence());
    learn(&mut list, harvest());
    learn(&mut list, raise_dead());
    learn(&mut list, doom());
    learn(&mut list, haste());
    learn(&mut list, stasis());
    learn(&mut list, echo_strike());
    learn(&mut list, smite());
    learn(&mut list, consecrate());
    learn(&mut list, aegis());
    learn(&mut list, elixir_vigor());
    learn(&mut list, smoke_bomb());
    proof {
        assert forall|i: int| 0 <= i < list@.len() implies is_spell(#[trigger] list@[i], SPELLS@[i])
            && shown(list@[i].root) == spell_op(i) && applied(list@[i].root).subset_of(
            known_statuses(),
        ) by {
            reveal(learnt);
            assert(written(list@[i], SPELLS@[i], spell_op(i), known_statuses()));
            reveal(written);
        }
    }
    list
}

/// The status effects.
pub fn statuses() -> (r: Vec<StatusEffectDef>)
    ensures
        are_statuses(r@, STATUSES@),
{
    let rows = STATUSES;
    read_all(rows.as_slice(), status)
}

/// The movement modes.
pub fn movement_modes() -> (r: Vec<MovementModeDef>)
    ensures
        are_movements(r@, MOVEMENT_MODES@),
{
    let rows = MOVEMENT_MODES;
    read_all(rows.as_slice(), movement)
}

/// The items.
pub fn items() -> (r: Vec<ItemDef>)
    ensures
        are_items(r@, ITEMS@),
{
    let rows = ITEMS;
    read_all(rows.as_slice(), item)
}

/// The abilities.
pub fn abilities() -> (r: Vec<AbilityDef>)
    ensures
        are_abilities(r@, ABILITIES@),
{
    let rows = ABILITIES;
    read_all(rows.as_slice(), ability)
}

/// The tech nodes.
pub fn tech_nodes() -> (r: Vec<TechNode>)
    ensures
        are_nodes(r@, TECH_NODES@),
{
    let rows = TECH_NODES;
    read_all(rows.as_slice(), node)
}

/// The materials.
pub fn materials() -> (r: Vec<MaterialDef>)
    ensures
        are_materials(r@, MATERIALS@),
{
    let rows = MATERIALS;
    read_all(rows.as_slice(), material)
}

/// The shaders.
pub fn shaders() -> (r: Vec<ShaderDef>)
    ensures
        are_shaders(r@, SHADERS@),
{
    let rows = SHADERS;
    read_all(rows.as_slice(), shader)
}

/// The creatures.
pub fn mobs() -> (r: Vec<MobDef>)
    ensures
        are_mobs(r@, MOBS@),
{
    let rows = MOBS;
    read_all(rows.as_slice(), mob)
}

/// The missions.
pub fn missions() -> (r: Vec<MissionDef>)
    ensures
        are_missions(r@, MISSIONS@),
{
    let rows = MISSIONS;
    read_all(rows.as_slice(), mission)
}

/// The loot tables.
pub fn loot_tables() -> (r: Vec<LootTableDef>)
    ensures
        are_loot(r@, LOOT_TABLES@),
{
    let rows = LOOT_TABLES;
    read_all(rows.as_slice(), loot)
}

/// The spawn rules.
pub fn spawn_rules() -> (r: Vec<SpawnRuleDef>)
    ensures
        are_spawns(r@, SPAWN_RULES@),
{
    let rows = SPAWN_RULES;
    read_all(rows.as_slice(), spawn)
}

/// The triggers.
pub fn triggers() -> (r: Vec<TriggerDef>)
    ensures
        are_triggers(r@, TRIGGERS@),
{
    let rows = TRIGGERS;
    read_all(rows.as_slice(), rule)
}

/// The game modes.
pub fn game_modes() -> (r: Vec<GameModeDef>)
    ensures
        are_modes(r@, GAME_MODES@),
{
    let rows = GAME_MODES;
    read_all(rows.as_slice(), mode)
}

/// The spells that other rows refer to.
pub open spec fn names_spells(known: Set<Seq<char>>) -> bool {
    &&& known.contains("spell.storm.spark"@)
    &&& known.contains("spell.storm.thunderclap"@)
    &&& known.contains("spell.storm.gale_step"@)
    &&& known.contains("spell.storm.tempest"@)
    &&& known.contains("spell.storm.ball_lightning"@)
    &&& known.contains("spell.verdance.thornlash"@)
    &&& known.contains("spell.verdance.entangle"@)
    &&& known.contains("spell.verdance.thornmail"@)
    &&& known.contains("spell.verdance.grove"@)
    &&& known.contains("spell.verdance.spore_burst"@)
    &&& known.contains("spell.verdance.summon_treant"@)
    &&& known.contains("spell.dead.shadow_bolt"@)
    &&& known.contains("spell.dead.hemorrhage"@)
    &&& known.contains("spell.dead.curse_of_silence"@)
    &&& known.contains("spell.dead.harvest"@)
    &&& known.contains("spell.dead.raise_dead"@)
    &&& known.contains("spell.dead.doom"@)
    &&& known.contains("spell.chrono.haste"@)
    &&& known.contains("spell.chrono.stasis"@)
    &&& known.contains("spell.chrono.echo_strike"@)
    &&& known.contains("spell.radiant.smite"@)
    &&& known.contains("spell.radiant.consecrate"@)
    &&& known.contains("spell.radiant.aegis"@)
}

proof fn spells_named(known: Set<Seq<char>>)
    requires
        forall|j: int| 0 <= j < 25 ==> known.contains(#[trigger] SPELLS@[j].0@),
    ensures
        names_spells(known),
{
    assert(SPELLS@[0].0@ == "spell.storm.spark"@);
    assert(SPELLS@[1].0@ == "spell.storm.thunderclap"@);
    assert(SPELLS@[2].0@ == "spell.storm.gale_step"@);
    assert(SPELLS@[3].0@ == "spell.storm.tempest"@);
    assert(SPELLS@[4].0@ == "spell.storm.ball_lightning"@);
    assert(SPELLS@[5].0@ == "spell.verdance.thornlash"@);
    assert(SPELLS@[6].0@ == "spell.verdance.entangle"@);
    assert(SPELLS@[7].0@ == "spell.verdance.thornmail"@);
    assert(SPELLS@[8].0@ == "spell.verdance.grove"@);
    assert(SPELLS@[9].0@ == "spell.verdance.spore_burst"@);
    assert(SPELLS@[10].0@ == "spell.verdance.summon_treant"@);
    assert(SPELLS@[11].0@ == "spell.dead.shadow_bolt"@);
    assert(SPELLS@[12].0@ == "spell.dead.hemorrhage"@);
    assert(SPELLS@[13].0@ == "spell.dead.curse_of_silence"@);
    assert(SPELLS@[14].0@ == "spell.dead.harvest"@);
    assert(SPELLS@[15].0@ == "spell.dead.raise_dead"@);
    assert(SPELLS@[16].0@ == "spell.dead.doom"@);
    assert(SPELLS@[17].0@ == "spell.chrono.haste"@);
    assert(SPELLS@[18].0@ == "spell.chrono.stasis"@);
    assert(SPELLS@[19].0@ == "spell.chrono.echo_strike"@);
    assert(SPELLS@[20].0@ == "spell.radiant.smite"@);
    assert(SPELLS@[21].0@ == "spell.radiant.consecrate"@);
    assert(SPELLS@[22].0@ == "spell.radiant.aegis"@);
}

/// The items that other rows refer to.
pub open spec fn names_items(known: Set<Seq<char>>) -> bool {
    &&& known.contains("item.storm.windsoles"@)
    &&& known.contains("item.storm.staff_tempest"@)
    &&& known.contains("item.storm.ring_tempest"@)
    &&& known.contains("item.verdance.vinecaster"@)
    &&& known.contains("item.verdance.staff_thorn"@)
    &&& known.contains("item.consume.smoke_phial"@)
    &&& known.contains("item.dead.scepter_grave"@)
    &&& known.contains("item.dead.shadow_cloak"@)
    &&& known.contains("item.dead.amulet_lich"@)
    &&& known.contains("item.chrono.hourglass"@)
    &&& known.contains("item.radiant.crown_dawn"@)
    &&& known.contains("item.verdance.seed_pod"@)
    &&& known.contains("item.verdance.heartwood"@)
    &&& known.contains("item.consume.vigor_elixir"@)
    &&& known.contains("item.storm.charged_core"@)
    &&& known.contains("item.dead.bone_dust"@)
    &&& known.contains("item.dead.shadow_silk"@)
    &&& known.contains("item.radiant.gilded_feather"@)
}

proof fn items_named(known: Set<Seq<char>>)
    requires
        forall|j: int| 0 <= j < 18 ==> known.contains(#[trigger] ITEMS@[j].0@),
    ensures
        names_items(known),
{
    assert(ITEMS@[13].0@ == "item.storm.windsoles"@);
    assert(ITEMS@[6].0@ == "item.storm.staff_tempest"@);
    assert(ITEMS@[11].0@ == "item.storm.ring_tempest"@);
    assert(ITEMS@[15].0@ == "item.verdance.vinecaster"@);
    assert(ITEMS@[7].0@ == "item.verdance.staff_thorn"@);
    assert(ITEMS@[17].0@ == "item.consume.smoke_phial"@);
    assert(ITEMS@[8].0@ == "item.dead.scepter_grave"@);
    assert(ITEMS@[14].0@ == "item.dead.shadow_cloak"@);
    assert(ITEMS@[10].0@ == "item.dead.amulet_lich"@);
    assert(ITEMS@[9].0@ == "item.chrono.hourglass"@);
    assert(ITEMS@[12].0@ == "item.radiant.crown_dawn"@);
    assert(ITEMS@[0].0@ == "item.verdance.seed_pod"@);
    assert(ITEMS@[1].0@ == "item.verdance.heartwood"@);
    assert(ITEMS@[16].0@ == "item.consume.vigor_elixir"@);
    assert(ITEMS@[2].0@ == "item.storm.charged_core"@);
    assert(ITEMS@[3].0@ == "item.dead.bone_dust"@);
    assert(ITEMS@[4].0@ == "item.dead.shadow_silk"@);
    assert(ITEMS@[5].0@ == "item.radiant.gilded_feather"@);
}

/// The abilities that other rows refer to.
pub open spec fn names_abilities(known: Set<Seq<char>>) -> bool {
    &&& known.contains("ability.radiant.smite"@)
    &&& known.contains("ability.verdance.thornlash"@)
    &&& known.contains("ability.verdance.entangle"@)
    &&& known.contains("ability.verdance.grove"@)
    &&& known.contains("ability.verdance.spore_burst"@)
    &&& known.contains("ability.storm.spark"@)
    &&& known.contains("ability.storm.ball_lightning"@)
    &&& known.contains("ability.storm.tempest"@)
    &&& known.contains("ability.storm.thunderclap"@)
    &&& known.contains("ability.dead.hemorrhage"@)
    &&& known.contains("ability.dead.shadow_bolt"@)
    &&& known.contains("ability.dead.curse_of_silence"@)
    &&& known.contains("ability.dead.harvest"@)
    &&& known.contains("ability.dead.doom"@)
    &&& known.contains("ability.dead.raise_dead"@)
    &&& known.contains("ability.radiant.aegis"@)
}

proof fn abilities_named(known: Set<Seq<char>>)
    requires
        forall|j: int| 0 <= j < 23 ==> known.contains(#[trigger] ABILITIES@[j].0@),
    ensures
        names_abilities(known),
{
    assert(ABILITIES@[20].0@ == "ability.radiant.smite"@);
    assert(ABILITIES@[5].0@ == "ability.verdance.thornlash"@);
    assert(ABILITIES@[6].0@ == "ability.verdance.entangle"@);
    assert(ABILITIES@[8].0@ == "ability.verdance.grove"@);
    assert(ABILITIES@[9].0@ == "ability.verdance.spore_burst"@);
    assert(ABILITIES@[0].0@ == "ability.storm.spark"@);
    assert(ABILITIES@[4].0@ == "ability.storm.ball_lightning"@);
    assert(ABILITIES@[3].0@ == "ability.storm.tempest"@);
    assert(ABILITIES@[1].0@ == "ability.storm.thunderclap"@);
    assert(ABILITIES@[12].0@ == "ability.dead.hemorrhage"@);
    assert(ABILITIES@[11].0@ == "ability.dead.shadow_bolt"@);
    assert(ABILITIES@[13].0@ == "ability.dead.curse_of_silence"@);
    assert(ABILITIES@[14].0@ == "ability.dead.harvest"@);
    assert(ABILITIES@[16].0@ == "ability.dead.doom"@);
    assert(ABILITIES@[15].0@ == "ability.dead.raise_dead"@);
    assert(ABILITIES@[22].0@ == "ability.radiant.aegis"@);
}

/// The statuses that other rows refer to.
pub open spec fn names_statuses(known: Set<Seq<char>>) -> bool {
    &&& known.contains("status.conductive"@)
    &&& known.contains("status.static_charge"@)
    &&& known.contains("status.sanctified"@)
}

proof fn statuses_named(known: Set<Seq<char>>)
    requires
        forall|j: int| 0 <= j < 18 ==> known.contains(#[trigger] STATUSES@[j].0@),
    ensures
        names_statuses(known),
{
    assert(STATUSES@[5].0@ == "status.conductive"@);
    assert(STATUSES@[4].0@ == "status.static_charge"@);
    assert(STATUSES@[16].0@ == "status.sanctified"@);
}

/// The creatures that other rows refer to.
pub open spec fn names_mobs(known: Set<Seq<char>>) -> bool {
    &&& known.contains("mob.verdance.thornling"@)
    &&& known.contains("mob.verdance.grove_warden"@)
    &&& known.contains("mob.storm.elemental"@)
    &&& known.contains("mob.storm.djinn"@)
    &&& known.contains("mob.dead.risen_husk"@)
    &&& known.contains("mob.dead.shade"@)
    &&& known.contains("mob.dead.bone_colossus"@)
}

proof fn mobs_named(known: Set<Seq<char>>)
    requires
        forall|j: int| 0 <= j < 10 ==> known.contains(#[trigger] MOBS@[j].0@),
    ensures
        names_mobs(known),
{
    assert(MOBS@[0].0@ == "mob.verdance.thornling"@);
    assert(MOBS@[2].0@ == "mob.verdance.grove_warden"@);
    assert(MOBS@[3].0@ == "mob.storm.elemental"@);
    assert(MOBS@[4].0@ == "mob.storm.djinn"@);
    assert(MOBS@[5].0@ == "mob.dead.risen_husk"@);
    assert(MOBS@[6].0@ == "mob.dead.shade"@);
    assert(MOBS@[8].0@ == "mob.dead.bone_colossus"@);
}

/// The tech nodes that other rows refer to.
pub open spec fn names_tech(known: Set<Seq<char>>) -> bool {
    &&& known.contains("tech.radiant_1"@)
}

proof fn tech_named(known: Set<Seq<char>>)
    requires
        forall|j: int| 0 <= j < 17 ==> known.contains(#[trigger] TECH_NODES@[j].0@),
    ensures
        names_tech(known),
{
    assert(TECH_NODES@[15].0@ == "tech.radiant_1"@);
}

/// The loot tables that other rows refer to.
pub open spec fn names_loot(known: Set<Seq<char>>) -> bool {
    &&& known.contains("loot.verdance"@)
    &&& known.contains("loot.storm"@)
    &&& known.contains("loot.boss_djinn"@)
    &&& known.contains("loot.dead"@)
    &&& known.contains("loot.boss_colossus"@)
}

proof fn loot_named(known: Set<Seq<char>>)
    requires
        forall|j: int| 0 <= j < 5 ==> known.contains(#[trigger] LOOT_TABLES@[j].0@),
    ensures
        names_loot(known),
{
    assert(LOOT_TABLES@[0].0@ == "loot.verdance"@);
    assert(LOOT_TABLES@[1].0@ == "loot.storm"@);
    assert(LOOT_TABLES@[4].0@ == "loot.boss_djinn"@);
    assert(LOOT_TABLES@[2].0@ == "loot.dead"@);
    assert(LOOT_TABLES@[3].0@ == "loot.boss_colossus"@);
}

proof fn abilities_resolve(known: Set<Seq<char>>)
    requires
        names_spells(known),
    ensures
        forall|i: int| 0 <= i < 23 ==> known.contains(#[trigger] ABILITIES@[i].2@),
{
    assert forall|i: int| 0 <= i < 23 implies known.contains(
        #[trigger] ABILITIES@[i].2@,
    ) by {
        if i == 0 {
        } else if i == 1 {
        } else if i == 2 {
        } else if i == 3 {
        } else if i == 4 {
        } else if i == 5 {
        } else if i == 6 {
        } else if i == 7 {
        } else if i == 8 {
        } else if i == 9 {
        } else if i == 10 {
        } else if i == 11 {
        } else if i == 12 {
        } else if i == 13 {
        } else if i == 14 {
        } else if i == 15 {
        } else if i == 16 {
        } else if i == 17 {
        } else if i == 18 {
        } else if i == 19 {
        } else if i == 20 {
        } else if i == 21 {
        } else if i == 22 {
        }
    }
}

proof fn tech_nodes_resolve(known: Set<Seq<char>>)
    requires
        names_items(known),
    ensures
        forall|i: int|
            0 <= i < 17 ==> row_known(
                (#[trigger] TECH_NODES@[i]).8.0,
                TECH_NODES@[i].8.1@,
                known,
            ),
{
    assert forall|i: int| 0 <= i < 17 implies row_known(
        (#[trigger] TECH_NODES@[i]).8.0,
        TECH_NODES@[i].8.1@,
        known,
    ) by {
        if i == 0 {
        } else if i == 1 {
        } else if i == 2 {
        } else if i == 3 {
        } else if i == 4 {
        } else if i == 5 {
        } else if i == 6 {
        } else if i == 7 {
        } else if i == 8 {
        } else if i == 9 {
        } else if i == 10 {
        } else if i == 11 {
        } else if i == 12 {
        } else if i == 13 {
        } else if i == 14 {
        } else if i == 15 {
        } else if i == 16 {
        }
    }
}

proof fn mobs_resolve(known: Set<Seq<char>>)
    requires
        names_abilities(known),
    ensures
        forall|i: int|
            0 <= i < 10 ==> row_known((#[trigger] MOBS@[i]).4.0, MOBS@[i].4.1@, known),
{
    assert forall|i: int| 0 <= i < 10 implies row_known(
        (#[trigger] MOBS@[i]).4.0,
        MOBS@[i].4.1@,
        known,
    ) by {
        if i == 0 {
        } else if i == 1 {
        } else if i == 2 {
        } else if i == 3 {
        } else if i == 4 {
        } else if i == 5 {
        } else if i == 6 {
        } else if i == 7 {
        } else if i == 8 {
        } else if i == 9 {
        }
    }
}

/// What the expansion takes from the pack that it is applied to.
pub open spec fn supported(p: ContentPack) -> bool {
    &&& keys(p.items@).contains("item.void_essence"@)
    &&& keys(p.items@).contains("item.void_relic"@)
    &&& keys(p.items@).contains("item.crystal_shard"@)
    &&& keys(p.items@).contains("item.mana_crystal"@)
    &&& keys(p.abilities@).contains("ability.fireball"@)
    &&& keys(p.loot_tables@).contains("loot.boss"@)
    &&& keys(p.statuses@).contains("status.invisible"@)
}

proof fn modes_resolve(abilities: Set<Seq<char>>, items: Set<Seq<char>>)
    requires
        names_abilities(abilities),
        abilities.contains("ability.fireball"@),
        names_items(items),
        items.contains("item.void_essence"@),
        items.contains("item.void_relic"@),
        items.contains("item.crystal_shard"@),
        items.contains("item.mana_crystal"@),
    ensures
        forall|i: int|
            0 <= i < 2 ==> row_known(
                (#[trigger] GAME_MODES@[i]).8.0,
                GAME_MODES@[i].8.1@,
                abilities,
            ) && pairs_known(GAME_MODES@[i].9.0, GAME_MODES@[i].9.1@, items),
{
    assert forall|i: int| 0 <= i < 2 implies row_known(
        (#[trigger] GAME_MODES@[i]).8.0,
        GAME_MODES@[i].8.1@,
        abilities,
    ) && pairs_known(GAME_MODES@[i].9.0, GAME_MODES@[i].9.1@, items) by {
        if i == 0 {
        } else if i == 1 {
        }
    }
}

proof fn loot_resolves(items: Set<Seq<char>>)
    requires
        names_items(items),
        items.contains("item.void_essence"@),
        items.contains("item.void_relic"@),
        items.contains("item.crystal_shard"@),
        items.contains("item.mana_crystal"@),
    ensures
        forall|i: int|
            0 <= i < 5 ==> entries_known(
                (#[trigger] LOOT_TABLES@[i]).2.0,
                LOOT_TABLES@[i].2.1@,
                items,
            ),
{
    assert forall|i: int| 0 <= i < 5 implies entries_known(
        (#[trigger] LOOT_TABLES@[i]).2.0,
        LOOT_TABLES@[i].2.1@,
        items,
    ) by {
        if i == 0 {
        } else if i == 1 {
        } else if i == 2 {
        } else if i == 3 {
        } else if i == 4 {
        }
    }
}

proof fn spawns_resolve(mobs: Set<Seq<char>>, loot: Set<Seq<char>>)
    requires
        names_mobs(mobs),
        names_loot(loot),
        loot.contains("loot.boss"@),
    ensures
        forall|i: int|
            0 <= i < 7 ==> mobs.contains((#[trigger] SPAWN_RULES@[i]).2@) && loot.contains(
                SPAWN_RULES@[i].7@,
            ),
{
    assert forall|i: int| 0 <= i < 7 implies mobs.contains((#[trigger] SPAWN_RULES@[i]).2@)
        && loot.contains(SPAWN_RULES@[i].7@) by {
        if i == 0 {
        } else if i == 1 {
        } else if i == 2 {
        } else if i == 3 {
        } else if i == 4 {
        } else if i == 5 {
        } else if i == 6 {
        }
    }
}

proof fn triggers_resolve(p: ContentPack)
    requires
        names_spells(keys(p.spells@)),
        names_tech(keys(p.tech.nodes@)),
        names_items(keys(p.items@)),
        names_statuses(keys(p.statuses@)),
        names_mobs(keys(p.mobs@)),
    ensures
        forall|i: int| 0 <= i < 6 ==> rule_known(#[trigger] TRIGGERS@[i], p),
{
    assert forall|i: int| 0 <= i < 6 implies rule_known(#[trigger] TRIGGERS@[i], p) by {
        if i == 0 {
        } else if i == 1 {
        } else if i == 2 {
        } else if i == 3 {
        } else if i == 4 {
        } else if i == 5 {
        }
    }
}

proof fn statuses_cover(p: ContentPack)
    requires
        forall|j: int|
            0 <= j < STATUSES@.len() ==> keys(p.statuses@).contains((#[trigger] STATUSES@[j]).0@),
        supported(p),
    ensures
        known_statuses().subset_of(keys(p.statuses@)),
{
    assert forall|k: Seq<char>| known_statuses().contains(k) implies keys(p.statuses@).contains(
        k,
    ) by {
        if k != "status.invisible"@ {
            let j = choose|j: int| 0 <= j < STATUSES@.len() && #[trigger] STATUSES@[j].0@ == k;
            assert(keys(p.statuses@).contains(STATUSES@[j].0@));
        }
    }
}

proof fn spells_known(p: ContentPack, n: int)
    requires
        0 <= n <= p.spells@.len(),
        are_spells(p.spells@.skip(n), SPELLS@, |i: int| spell_op(i)),
    ensures
        names_spells(keys(p.spells@)),
{
    spells_added(p, n, SPELLS@, |i: int| spell_op(i));
    spells_named(keys(p.spells@));
}

proof fn items_known(p: ContentPack, n: int)
    requires
        0 <= n <= p.items@.len(),
        are_items(p.items@.skip(n), ITEMS@),
    ensures
        names_items(keys(p.items@)),
{
    items_added(p, n, ITEMS@);
    items_named(keys(p.items@));
}

proof fn abilities_known(p: ContentPack, n: int)
    requires
        0 <= n <= p.abilities@.len(),
        are_abilities(p.abilities@.skip(n), ABILITIES@),
    ensures
        names_abilities(keys(p.abilities@)),
{
    abilities_added(p, n, ABILITIES@);
    abilities_named(keys(p.abilities@));
}

proof fn nodes_known(p: ContentPack, n: int)
    requires
        0 <= n <= p.tech.nodes@.len(),
        are_nodes(p.tech.nodes@.skip(n), TECH_NODES@),
    ensures
        names_tech(keys(p.tech.nodes@)),
{
    nodes_added(p, n, TECH_NODES@);
    tech_named(keys(p.tech.nodes@));
}

proof fn mobs_known(p: ContentPack, n: int)
    requires
        0 <= n <= p.mobs@.len(),
        are_mobs(p.mobs@.skip(n), MOBS@),
    ensures
        names_mobs(keys(p.mobs@)),
{
    mobs_added(p, n, MOBS@);
    mobs_named(keys(p.mobs@));
}

proof fn loot_known(p: ContentPack, n: int)
    requires
        0 <= n <= p.loot_tables@.len(),
        are_loot(p.loot_tables@.skip(n), LOOT_TABLES@),
    ensures
        names_loot(keys(p.loot_tables@)),
{
    loot_added(p, n, LOOT_TABLES@);
    loot_named(keys(p.loot_tables@));
}

proof fn statuses_known(p: ContentPack, n: int)
    requires
        0 <= n <= p.statuses@.len(),
        are_statuses(p.statuses@.skip(n), STATUSES@),
        supported(p),
    ensures
        names_statuses(keys(p.statuses@)),
        known_statuses().subset_of(keys(p.statuses@)),
{
    statuses_added(p, n, STATUSES@);
    statuses_named(keys(p.statuses@));
    statuses_cover(p);
}

proof fn abilities_resolved(p: ContentPack, n: int)
    requires
        0 <= n <= p.abilities@.len(),
        are_abilities(p.abilities@.skip(n), ABILITIES@),
        names_spells(keys(p.spells@)),
    ensures
        forall|i: int| n <= i < p.abilities@.len() ==> #[trigger] p.ability_closed(i),
{
    abilities_resolve(keys(p.spells@));
    abilities_closed(p, n, ABILITIES@);
}

proof fn nodes_resolved(p: ContentPack, n: int)
    requires
        0 <= n <= p.tech.nodes@.len(),
        are_nodes(p.tech.nodes@.skip(n), TECH_NODES@),
        names_items(keys(p.items@)),
    ensures
        forall|i: int| n <= i < p.tech.nodes@.len() ==> #[trigger] p.tech_node_closed(i),
{
    tech_nodes_resolve(keys(p.items@));
    nodes_closed(p, n, TECH_NODES@);
}

proof fn mobs_resolved(p: ContentPack, n: int)
    requires
        0 <= n <= p.mobs@.len(),
        are_mobs(p.mobs@.skip(n), MOBS@),
        names_abilities(keys(p.abilities@)),
    ensures
        forall|i: int| n <= i < p.mobs@.len() ==> #[trigger] casts_known(p, i),
{
    mobs_resolve(keys(p.abilities@));
    mobs_cast(p, n, MOBS@);
}

proof fn modes_resolved(p: ContentPack, n: int)
    requires
        0 <= n <= p.game_modes@.len(),
        are_modes(p.game_modes@.skip(n), GAME_MODES@),
        names_abilities(keys(p.abilities@)),
        names_items(keys(p.items@)),
        supported(p),
    ensures
        forall|i: int| n <= i < p.game_modes@.len() ==> #[trigger] p.game_mode_closed(i),
{
    modes_resolve(keys(p.abilities@), keys(p.items@));
    modes_closed(p, n, GAME_MODES@);
}

proof fn loot_resolved(p: ContentPack, n: int)
    requires
        0 <= n <= p.loot_tables@.len(),
        are_loot(p.loot_tables@.skip(n), LOOT_TABLES@),
        names_items(keys(p.items@)),
        supported(p),
    ensures
        forall|i: int| n <= i < p.loot_tables@.len() ==> #[trigger] p.loot_table_closed(i),
{
    loot_resolves(keys(p.items@));
    loot_closed(p, n, LOOT_TABLES@);
}

proof fn spawns_resolved(p: ContentPack, n: int)
    requires
        0 <= n <= p.spawn_rules@.len(),
        are_spawns(p.spawn_rules@.skip(n), SPAWN_RULES@),
        names_mobs(keys(p.mobs@)),
        names_loot(keys(p.loot_tables@)),
        supported(p),
    ensures
        forall|i: int| n <= i < p.spawn_rules@.len() ==> #[trigger] p.spawn_rule_closed(i),
{
    spawns_resolve(keys(p.mobs@), keys(p.loot_tables@));
    spawns_closed(p, n, SPAWN_RULES@);
}

proof fn triggers_resolved(p: ContentPack, n: int)
    requires
        0 <= n <= p.triggers@.len(),
        are_triggers(p.triggers@.skip(n), TRIGGERS@),
        names_spells(keys(p.spells@)),
        names_tech(keys(p.tech.nodes@)),
        names_items(keys(p.items@)),
        names_statuses(keys(p.statuses@)),
        names_mobs(keys(p.mobs@)),
    ensures
        forall|i: int| n <= i < p.triggers@.len() ==> #[trigger] p.trigger_closed(i),
{
    triggers_resolve(p);
    triggers_closed(p, n, TRIGGERS@);
}

/// The pack `p` is the pack `old` with the expansion's tables added to it and its places
/// grafted onto the world; all else is as it was.
#[verifier::opaque]
pub open spec fn expanded(old: ContentPack, p: ContentPack) -> bool {
    &&& p.label@ == "cerena-default-0.3 + tempest-verdance-hollow"@
    &&& extends(old.spells@, p.spells@) && are_spells(
        p.spells@.skip(old.spells@.len() as int),
        SPELLS@,
        |i: int| spell_op(i),
    )
    &&& extends(old.items@, p.items@) && are_items(
        p.items@.skip(old.items@.len() as int),
        ITEMS@,
    )
    &&& extends(old.abilities@, p.abilities@) && are_abilities(
        p.abilities@.skip(old.abilities@.len() as int),
        ABILITIES@,
    )
    &&& extends(old.tech.nodes@, p.tech.nodes@) && are_nodes(
        p.tech.nodes@.skip(old.tech.nodes@.len() as int),
        TECH_NODES@,
    )
    &&& extends(old.statuses@, p.statuses@) && are_statuses(
        p.statuses@.skip(old.statuses@.len() as int),
        STATUSES@,
    )
    &&& extends(old.movement_modes@, p.movement_modes@) && are_movements(
        p.movement_modes@.skip(old.movement_modes@.len() as int),
        MOVEMENT_MODES@,
    )
    &&& extends(old.materials@, p.materials@) && are_materials(
        p.materials@.skip(old.materials@.len() as int),
        MATERIALS@,
    )
    &&& extends(old.shaders@, p.shaders@) && are_shaders(
        p.shaders@.skip(old.shaders@.len() as int),
        SHADERS@,
    )
    &&& extends(old.mobs@, p.mobs@) && are_mobs(
        p.mobs@.skip(old.mobs@.len() as int),
        MOBS@,
    )
    &&& extends(old.missions@, p.missions@) && are_missions(
        p.missions@.skip(old.missions@.len() as int),
        MISSIONS@,
    )
    &&& extends(old.loot_tables@, p.loot_tables@) && are_loot(
        p.loot_tables@.skip(old.loot_tables@.len() as int),
        LOOT_TABLES@,
    )
    &&& extends(old.spawn_rules@, p.spawn_rules@) && are_spawns(
        p.spawn_rules@.skip(old.spawn_rules@.len() as int),
        SPAWN_RULES@,
    )
    &&& extends(old.triggers@, p.triggers@) && are_triggers(
        p.triggers@.skip(old.triggers@.len() as int),
        TRIGGERS@,
    )
    &&& extends(old.game_modes@, p.game_modes@) && are_modes(
        p.game_modes@.skip(old.game_modes@.len() as int),
        GAME_MODES@,
    )
    &&& extends(old.worldgen.biomes@, p.worldgen.biomes@) && are_biomes(
        p.worldgen.biomes@.skip(old.worldgen.biomes@.len() as int),
        BIOMES@,
    )
    &&& extends(old.worldgen.structures@, p.worldgen.structures@) && are_structures(
        p.worldgen.structures@.skip(old.worldgen.structures@.len() as int),
        STRUCTURES@,
    )
    &&& p.worldgen == (WorldGenParams {
        biomes: p.worldgen.biomes,
        structures: p.worldgen.structures,
        ..old.worldgen
    })
    &&& p.tuning == old.tuning
    &&& p.forge == old.forge
    &&& p.affixes == old.affixes
    &&& p.gems == old.gems
    &&& p.item_sets == old.item_sets
    &&& p.enchants == old.enchants
    &&& p.runewords == old.runewords
}

proof fn supported_stays(old: ContentPack, p: ContentPack)
    requires
        supported(old),
        p.grown_from(old),
    ensures
        supported(p),
{
    keys_grow(old.items@, p.items@);
    keys_grow(old.abilities@, p.abilities@);
    keys_grow(old.loot_tables@, p.loot_tables@);
    keys_grow(old.statuses@, p.statuses@);
}

/// The expansion only adds to a pack.
pub proof fn expansion_only_adds(old: ContentPack, p: ContentPack)
    requires
        expanded(old, p),
    ensures
        p.grown_from(old),
{
    reveal(expanded);
}

proof fn new_abilities(old: ContentPack, p: ContentPack)
    requires
        expanded(old, p),
    ensures
        forall|i: int|
            old.abilities@.len() <= i < p.abilities@.len() ==> #[trigger] p.ability_closed(i),
{
    reveal(expanded);
    spells_known(p, old.spells@.len() as int);
    abilities_resolved(p, old.abilities@.len() as int);
}

proof fn new_nodes(old: ContentPack, p: ContentPack)
    requires
        expanded(old, p),
    ensures
        forall|i: int|
            old.tech.nodes@.len() <= i < p.tech.nodes@.len() ==> #[trigger] p.tech_node_closed(i),
{
    reveal(expanded);
    items_known(p, old.items@.len() as int);
    nodes_resolved(p, old.tech.nodes@.len() as int);
}

proof fn new_modes(old: ContentPack, p: ContentPack)
    requires
        expanded(old, p),
        supported(p),
    ensures
        forall|i: int|
            old.game_modes@.len() <= i < p.game_modes@.len() ==> #[trigger] p.game_mode_closed(i),
{
    reveal(expanded);
    items_known(p, old.items@.len() as int);
    abilities_known(p, old.abilities@.len() as int);
    modes_resolved(p, old.game_modes@.len() as int);
}

proof fn new_loot(old: ContentPack, p: ContentPack)
    requires
        expanded(old, p),
        supported(p),
    ensures
        forall|i: int|
            old.loot_tables@.len() <= i < p.loot_tables@.len() ==> #[trigger] p.loot_table_closed(i),
{
    reveal(expanded);
    items_known(p, old.items@.len() as int);
    loot_resolved(p, old.loot_tables@.len() as int);
}

proof fn new_spawns(old: ContentPack, p: ContentPack)
    requires
        expanded(old, p),
        supported(p),
    ensures
        forall|i: int|
            old.spawn_rules@.len() <= i < p.spawn_rules@.len() ==> #[trigger] p.spawn_rule_closed(i),
{
    reveal(expanded);
    mobs_known(p, old.mobs@.len() as int);
    loot_known(p, old.loot_tables@.len() as int);
    spawns_resolved(p, old.spawn_rules@.len() as int);
}

proof fn new_triggers(old: ContentPack, p: ContentPack)
    requires
        expanded(old, p),
        supported(p),
    ensures
        forall|i: int|
            old.triggers@.len() <= i < p.triggers@.len() ==> #[trigger] p.trigger_closed(i),
{
    reveal(expanded);
    spells_known(p, old.spells@.len() as int);
    nodes_known(p, old.tech.nodes@.len() as int);
    items_known(p, old.items@.len() as int);
    statuses_known(p, old.statuses@.len() as int);
    mobs_known(p, old.mobs@.len() as int);
    triggers_resolved(p, old.triggers@.len() as int);
}

proof fn new_spells(old: ContentPack, p: ContentPack)
    requires
        expanded(old, p),
        applies_known(p.spells@.skip(old.spells@.len() as int), known_statuses()),
        supported(p),
    ensures
        forall|i: int| old.spells@.len() <= i < p.spells@.len() ==> #[trigger] p.spell_closed(i),
{
    reveal(expanded);
    statuses_known(p, old.statuses@.len() as int);
    let n = old.spells@.len() as int;
    assert forall|i: int| n <= i < p.spells@.len() implies #[trigger] p.spell_closed(i) by {
        assert(p.spells@.skip(n)[i - n] == p.spells@[i]);
        assert(applied(p.spells@[i].root).subset_of(known_statuses()));
    }
}

/// Every cross-reference of the expansion resolves in a pack that has what it builds on.
pub proof fn expansion_resolves(old: ContentPack, p: ContentPack)
    requires
        expanded(old, p),
        applies_known(p.spells@.skip(old.spells@.len() as int), known_statuses()),
        supported(p),
    ensures
        p.additions_closed(old),
{
    new_abilities(old, p);
    new_nodes(old, p);
    new_spells(old, p);
    new_modes(old, p);
    new_loot(old, p);
    new_spawns(old, p);
    new_triggers(old, p);
    assert(p.item_sets == old.item_sets && p.runewords == old.runewords) by {
        reveal(expanded);
    }
}

/// Applied to a valid pack that has what it builds on, the expansion gives a valid pack.
pub proof fn expansion_keeps_packs_valid(old: ContentPack, p: ContentPack)
    requires
        expanded(old, p),
        applies_known(p.spells@.skip(old.spells@.len() as int), known_statuses()),
        old.problem() is None,
        supported(old),
    ensures
        p.problem() is None,
{
    expansion_only_adds(old, p);
    supported_stays(old, p);
    expansion_resolves(old, p);
    p.growth_keeps_packs_valid(old);
}

/// The expansion cannot do without the loot table that its wardens draw on.
pub proof fn expansion_needs_its_loot(old: ContentPack, p: ContentPack)
    requires
        expanded(old, p),
        p.problem() is None,
    ensures
        keys(p.loot_tables@).contains("loot.boss"@),
{
    valid_means_closed(p);
    reveal(expanded);
    let n = old.spawn_rules@.len() as int;
    let new = p.spawn_rules@.skip(n);
    assert(new.len() == SPAWN_RULES@.len());
    assert(is_spawn(new[1], SPAWN_RULES@[1]));
    assert(new[1] == p.spawn_rules@[n + 1]);
    assert(p.spawn_rule_closed(n + 1));
    assert(SPAWN_RULES@[1].7@ == "loot.boss"@);
    reveal_strlit("loot.boss");
    reveal_strlit("");
    assert("loot.boss"@.len() != ""@.len());
}


/// Every ability that a creature casts stays known.
pub proof fn expansion_keeps_mobs_closed(old: ContentPack, p: ContentPack)
    requires
        expanded(old, p),
        mobs_closed(old),
    ensures
        mobs_closed(p),
{
    reveal(expanded);
    let n = old.mobs@.len() as int;
    abilities_known(p, old.abilities@.len() as int);
    mobs_resolved(p, n);
    keys_grow(old.abilities@, p.abilities@);
    assert forall|i: int| 0 <= i < p.mobs@.len() implies #[trigger] casts_known(p, i) by {
        if i < n {
            assert(casts_known(old, i));
            assert(old.mobs@[i] == p.mobs@[i]);
        }
    }
}

fn graft_world(world: &mut WorldGenParams)
    ensures
        extends(old(world).biomes@, final(world).biomes@),
        are_biomes(final(world).biomes@.skip(old(world).biomes@.len() as int), BIOMES@),
        extends(old(world).structures@, final(world).structures@),
        are_structures(
            final(world).structures@.skip(old(world).structures@.len() as int),
            STRUCTURES@,
        ),
        *final(world) == (WorldGenParams {
            biomes: final(world).biomes,
            structures: final(world).structures,
            ..*old(world)
        }),
{
    let biomes = BIOMES;
    let structures = STRUCTURES;
    extend(&mut world.biomes, read_all(biomes.as_slice(), biome));
    extend(&mut world.structures, read_all(structures.as_slice(), structure));
}

/// Graft every expansion definition onto a pack. Pure append and world-graft; a valid pack
/// with what the expansion builds on stays valid.
pub fn apply(pack: &mut ContentPack)
    ensures
        expanded(*old(pack), *final(pack)),
        applies_known(
            final(pack).spells@.skip(old(pack).spells@.len() as int),
            known_statuses(),
        ),
        old(pack).problem() is None && supported(*old(pack)) ==> final(pack).problem() is None,
        mobs_closed(*old(pack)) ==> mobs_closed(*final(pack)),
{
    let new_spells = spells();
    let ghost added = new_spells@;
    pack.label = "cerena-default-0.3 + tempest-verdance-hollow".to_owned();
    extend(&mut pack.statuses, statuses());
    extend(&mut pack.spells, new_spells);
    extend(&mut pack.movement_modes, movement_modes());
    extend(&mut pack.materials, materials());
    extend(&mut pack.shaders, shaders());
    extend(&mut pack.mobs, mobs());
    extend(&mut pack.items, items());
    extend(&mut pack.abilities, abilities());
    extend(&mut pack.tech.nodes, tech_nodes());
    extend(&mut pack.missions, missions());
    extend(&mut pack.loot_tables, loot_tables());
    extend(&mut pack.spawn_rules, spawn_rules());
    extend(&mut pack.triggers, triggers());
    extend(&mut pack.game_modes, game_modes());
    graft_world(&mut pack.worldgen);
    proof {
        reveal(expanded);
        assert(pack.spells@.skip(old(pack).spells@.len() as int) == added);
        assert(expanded(*old(pack), *pack));
        if old(pack).problem() is None && supported(*old(pack)) {
            expansion_keeps_packs_valid(*old(pack), *pack);
        }
        if mobs_closed(*old(pack)) {
            expansion_keeps_mobs_closed(*old(pack), *pack);
        }
    }
}

} // verus!
