//! A [`ContentPack`]: the versioned, content-addressed bundle of every definition.
//!
//! A pack is the unit of hot-reload. The designer edits definitions, builds a pack,
//! and publishes its bytes as a blob; the hash of those bytes is its identity.
//! Authorities and clients fetch by hash, validate, and swap.

use crate::content::ability::AbilityDef;
use crate::content::affix::AffixDef;
use crate::content::digest::{digest_text, pack_hash};
use crate::content::enchant::{EnchantDef, RunewordDef};
use crate::content::error::ContentError;
use crate::content::forge::ForgeConfig;
use crate::content::gamemode::GameModeDef;
use crate::content::gem::GemDef;
use crate::content::item::ItemDef;
use crate::content::itemset::SetDef;
use crate::content::loot::LootTableDef;
use crate::content::material::{MaterialDef, ShaderDef};
use crate::content::mission::MissionDef;
use crate::content::mob::MobDef;
use crate::content::movement::MovementModeDef;
use crate::content::spawn::SpawnRuleDef;
use crate::content::spell::SpellDef;
use crate::content::status::StatusEffectDef;
use crate::content::tech::TechTree;
use crate::content::triggers::TriggerDef;
use crate::content::tuning::TuningConfig;
use crate::content::worldgen::WorldGenParams;
use crate::text::same;
use vstd::prelude::*;

verus! {

/// Every piece of designer-authored data for one game build. Collections are flat
/// vectors keyed by each def's stable `id`; the registry indexes them at swap time.
#[derive(Debug, Clone)]
pub struct ContentPack {
    /// Human label for the pack (e.g. "0.4.2 — frost rework").
    pub label: String,
    pub spells: Vec<SpellDef>,
    pub items: Vec<ItemDef>,
    pub abilities: Vec<AbilityDef>,
    pub tech: TechTree,
    pub statuses: Vec<StatusEffectDef>,
    pub movement_modes: Vec<MovementModeDef>,
    pub materials: Vec<MaterialDef>,
    pub shaders: Vec<ShaderDef>,
    pub worldgen: WorldGenParams,
    pub mobs: Vec<MobDef>,
    pub missions: Vec<MissionDef>,
    /// Global balance numbers (gravity, speeds, regen, XP curve, loot fractions...).
    /// All gameplay magic-numbers live here so they hot-reload.
    pub tuning: TuningConfig,
    /// Match rule-sets (win/scoring/teams/loadout). Switching the active mode is live.
    pub game_modes: Vec<GameModeDef>,
    /// Named weighted drop pools referenced by mobs, missions, and death-drops.
    pub loot_tables: Vec<LootTableDef>,
    /// Data-driven rules for populating the open world with creatures.
    pub spawn_rules: Vec<SpawnRuleDef>,
    /// Data-driven event->action rules: the designer's scripting layer.
    pub triggers: Vec<TriggerDef>,
    /// Rollable magic properties that drop instances roll from.
    pub affixes: Vec<AffixDef>,
    /// Socketable gems and runes.
    pub gems: Vec<GemDef>,
    /// Gear sets and their bonus ladders.
    pub item_sets: Vec<SetDef>,
    /// Permanent applied enchants.
    pub enchants: Vec<EnchantDef>,
    /// Runeword recipes.
    pub runewords: Vec<RunewordDef>,
    /// House rules for the forge (upgrade/reforge/socket/enchant economy).
    pub forge: ForgeConfig,
}

impl ContentPack {
    /// Deterministic content hash of a pack, from the bytes it is encoded to: their
    /// SHA-256 digest in lower-case hexadecimal. This is the pack's identity on the mesh;
    /// clients verify what they fetched matches the hash a coordinator announced.
    pub fn hash(encoded: &[u8]) -> (r: String)
        ensures
            r@ == pack_hash(encoded@),
    {
        digest_text(encoded)
    }

    /// What encoding a pack for transport comes to: the bytes, or the encoder's complaint.
    pub fn encode(encoded: Result<Vec<u8>, String>) -> (r: Result<Vec<u8>, ContentError>)
        ensures
            match encoded {
                Ok(bytes) => r == Ok::<Vec<u8>, ContentError>(bytes),
                Err(why) => r == Err::<Vec<u8>, ContentError>(ContentError::Decode(why)),
            },
    {
        match encoded {
            Ok(bytes) => Ok(bytes),
            Err(why) => Err(ContentError::Decode(why)),
        }
    }

    /// Lets through a pack whose hash is the expected one.
    pub fn verified(self, got: String, expected: &str) -> (r: Result<ContentPack, ContentError>)
        ensures
            if got@ == expected@ {
                r == Ok::<ContentPack, ContentError>(self)
            } else {
                r matches Err(ContentError::HashMismatch { expected: e, got: g }) && e@ == expected@
                    && g == got
            },
    {
        if same(got.as_str(), expected) {
            Ok(self)
        } else {
            Err(ContentError::HashMismatch { expected: expected.to_owned(), got })
        }
    }

    /// Decode and verify against an expected hash (the one the coordinator announced).
    /// `decoded` is what reading the received bytes gave: the pack, or the reader's
    /// complaint. Rejects a pack whose bytes do not hash to `expected`.
    pub fn decode_verified(
        received: &[u8],
        decoded: Result<ContentPack, String>,
        expected: &str,
    ) -> (r: Result<ContentPack, ContentError>)
        ensures
            match decoded {
                Err(why) => r == Err::<ContentPack, ContentError>(ContentError::Decode(why)),
                Ok(pack) => if pack_hash(received@) == expected@ {
                    r == Ok::<ContentPack, ContentError>(pack)
                } else {
                    r matches Err(ContentError::HashMismatch { expected: e, got }) && e@ == expected@
                        && got@ == pack_hash(received@)
                },
            },
    {
        match decoded {
            Err(why) => Err(ContentError::Decode(why)),
            Ok(pack) => {
                let got = ContentPack::hash(received);
                pack.verified(got, expected)
            },
        }
    }
}

impl ContentPack {
    /// No definition of any kind.
    pub open spec fn is_empty(self) -> bool {
        &&& self.tech.nodes@.len() == 0
        &&& self.spells@.len() == 0
        &&& self.items@.len() == 0
        &&& self.abilities@.len() == 0
        &&& self.statuses@.len() == 0
        &&& self.movement_modes@.len() == 0
        &&& self.materials@.len() == 0
        &&& self.shaders@.len() == 0
        &&& self.mobs@.len() == 0
        &&& self.missions@.len() == 0
        &&& self.game_modes@.len() == 0
        &&& self.loot_tables@.len() == 0
        &&& self.spawn_rules@.len() == 0
        &&& self.triggers@.len() == 0
        &&& self.affixes@.len() == 0
        &&& self.gems@.len() == 0
        &&& self.item_sets@.len() == 0
        &&& self.enchants@.len() == 0
        &&& self.runewords@.len() == 0
    }

    /// An empty pack (used as a safe default before the first real pack loads).
    pub fn empty() -> (r: Self)
        ensures
            r.label@ == "empty"@,
            r.is_empty(),
            r.worldgen.mystery_terrain() && r.worldgen.mystery_places(),
            call_ensures(TuningConfig::default, (), r.tuning),
            call_ensures(ForgeConfig::default, (), r.forge),
    {
        ContentPack {
            label: "empty".to_owned(),
            tech: TechTree::default(),
            worldgen: WorldGenParams::default(),
            tuning: TuningConfig::default(),
            forge: ForgeConfig::default(),
            spells: Vec::new(),
            items: Vec::new(),
            abilities: Vec::new(),
            statuses: Vec::new(),
            movement_modes: Vec::new(),
            materials: Vec::new(),
            shaders: Vec::new(),
            mobs: Vec::new(),
            missions: Vec::new(),
            game_modes: Vec::new(),
            loot_tables: Vec::new(),
            spawn_rules: Vec::new(),
            triggers: Vec::new(),
            affixes: Vec::new(),
            gems: Vec::new(),
            item_sets: Vec::new(),
            enchants: Vec::new(),
            runewords: Vec::new(),
        }
    }
}

/// A pack is let in only under the hash of the bytes that were received, and is then the pack that was
/// read; under the hash that its bytes have it always is. Bytes that cannot be read are never let in.
pub proof fn only_the_announced_pack_is_let_in(
    received: &[u8],
    pack: ContentPack,
    expected: &str,
    r: Result<ContentPack, ContentError>,
    own: String,
    why: String,
    unread: Result<ContentPack, ContentError>,
)
    requires
        call_ensures(ContentPack::decode_verified, (received, Ok(pack), expected), r),
        call_ensures(ContentPack::hash, (received,), own),
        call_ensures(ContentPack::decode_verified, (received, Err(why), expected), unread),
    ensures
        r is Ok <==> own@ == expected@,
        r matches Ok(p) ==> p == pack,
        r matches Err(ContentError::HashMismatch { expected: e, got }) ==> e@ == expected@ && got@
            == own@,
        r is Err ==> r->Err_0 is HashMismatch,
        unread == Err::<ContentPack, ContentError>(ContentError::Decode(why)),
{
}

} // verus!
