//! The entire game-design surface, expressed as data so that it can be hot-reloaded into
//! a live match. Code is a fixed interpreter; everything a designer tweaks day-to-day
//! (spells, items, the tech tree, abilities, movement modes, materials, shaders,
//! world-gen, mobs, missions) lives here as definitions.

pub mod ability;
pub mod added;
pub mod affix;
pub mod closed;
pub mod default_pack;
pub mod digest;
pub mod enchant;
pub mod error;
pub mod expansion;
pub mod forge;
pub mod gamemode;
pub mod gear;
pub mod gem;
pub mod growth;
pub mod hotreload;
pub mod ids;
pub mod item;
pub mod itemset;
pub mod keyed;
pub mod loot;
pub mod material;
pub mod mission;
pub mod mob;
pub mod movement;
pub mod pack;
pub mod registry;
pub mod sheet;
pub mod spawn;
pub mod spell;
pub mod status;
pub mod tech;
pub mod triggers;
pub mod tuning;
pub mod validate;
pub mod words;
pub mod worldgen;
