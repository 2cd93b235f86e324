//! Stable identifiers for every kind of content.
//!
//! Ids are short strings (e.g. `"spell.fireball"`, `"item.ember_staff"`). They are the
//! join key between live game state and hot-reloadable definitions: state stores ids,
//! the [`crate::content::registry::ContentRegistry`] resolves ids to the *current*
//! definition. Renaming an id is a breaking content change (old saved state would
//! dangle), so ids are append-only by convention.
//!
//! A newtype per kind prevents mixing an [`ItemId`] where a [`SpellId`] is expected. The
//! view of an id is its text.

use vstd::prelude::*;

verus! {

/// A composable spell (a graph of effect ops).
#[derive(Debug, PartialEq, Eq, PartialOrd, Ord, Hash)]
pub struct SpellId(pub String);

impl View for SpellId {
    type V = Seq<char>;

    open spec fn view(&self) -> Seq<char> {
        self.0@
    }
}

impl Clone for SpellId {
    fn clone(&self) -> (r: Self)
        ensures
            r == *self,
    {
        SpellId(self.0.clone())
    }
}

impl SpellId {
    pub fn new(s: &str) -> (r: Self)
        ensures
            r@ == s@,
    {
        SpellId(s.to_owned())
    }

    pub fn as_str(&self) -> (r: &str)
        ensures
            r@ == self@,
    {
        self.0.as_str()
    }
}

/// An equippable/consumable/craftable item.
#[derive(Debug, PartialEq, Eq, PartialOrd, Ord, Hash)]
pub struct ItemId(pub String);

impl View for ItemId {
    type V = Seq<char>;

    open spec fn view(&self) -> Seq<char> {
        self.0@
    }
}

impl Clone for ItemId {
    fn clone(&self) -> (r: Self)
        ensures
            r == *self,
    {
        ItemId(self.0.clone())
    }
}

impl ItemId {
    pub fn new(s: &str) -> (r: Self)
        ensures
            r@ == s@,
    {
        ItemId(s.to_owned())
    }

    pub fn as_str(&self) -> (r: &str)
        ensures
            r@ == self@,
    {
        self.0.as_str()
    }
}

/// An equipped action: wraps a spell with binding + cooldown.
#[derive(Debug, PartialEq, Eq, PartialOrd, Ord, Hash)]
pub struct AbilityId(pub String);

impl View for AbilityId {
    type V = Seq<char>;

    open spec fn view(&self) -> Seq<char> {
        self.0@
    }
}

impl Clone for AbilityId {
    fn clone(&self) -> (r: Self)
        ensures
            r == *self,
    {
        AbilityId(self.0.clone())
    }
}

impl AbilityId {
    pub fn new(s: &str) -> (r: Self)
        ensures
            r@ == s@,
    {
        AbilityId(s.to_owned())
    }

    pub fn as_str(&self) -> (r: &str)
        ensures
            r@ == self@,
    {
        self.0.as_str()
    }
}

/// A node in the tech tree.
#[derive(Debug, PartialEq, Eq, PartialOrd, Ord, Hash)]
pub struct TechNodeId(pub String);

impl View for TechNodeId {
    type V = Seq<char>;

    open spec fn view(&self) -> Seq<char> {
        self.0@
    }
}

impl Clone for TechNodeId {
    fn clone(&self) -> (r: Self)
        ensures
            r == *self,
    {
        TechNodeId(self.0.clone())
    }
}

impl TechNodeId {
    pub fn new(s: &str) -> (r: Self)
        ensures
            r@ == s@,
    {
        TechNodeId(s.to_owned())
    }

    pub fn as_str(&self) -> (r: &str)
        ensures
            r@ == self@,
    {
        self.0.as_str()
    }
}

/// A status effect (buff/debuff/DoT/field).
#[derive(Debug, PartialEq, Eq, PartialOrd, Ord, Hash)]
pub struct StatusId(pub String);

impl View for StatusId {
    type V = Seq<char>;

    open spec fn view(&self) -> Seq<char> {
        self.0@
    }
}

impl Clone for StatusId {
    fn clone(&self) -> (r: Self)
        ensures
            r == *self,
    {
        StatusId(self.0.clone())
    }
}

impl StatusId {
    pub fn new(s: &str) -> (r: Self)
        ensures
            r@ == s@,
    {
        StatusId(s.to_owned())
    }

    pub fn as_str(&self) -> (r: &str)
        ensures
            r@ == self@,
    {
        self.0.as_str()
    }
}

/// A movement/parkour mode (dash, wall-run, grapple...).
#[derive(Debug, PartialEq, Eq, PartialOrd, Ord, Hash)]
pub struct MovementModeId(pub String);

impl View for MovementModeId {
    type V = Seq<char>;

    open spec fn view(&self) -> Seq<char> {
        self.0@
    }
}

impl Clone for MovementModeId {
    fn clone(&self) -> (r: Self)
        ensures
            r == *self,
    {
        MovementModeId(self.0.clone())
    }
}

impl MovementModeId {
    pub fn new(s: &str) -> (r: Self)
        ensures
            r@ == s@,
    {
        MovementModeId(s.to_owned())
    }

    pub fn as_str(&self) -> (r: &str)
        ensures
            r@ == self@,
    {
        self.0.as_str()
    }
}

/// A procedural material (drives texture synthesis).
#[derive(Debug, PartialEq, Eq, PartialOrd, Ord, Hash)]
pub struct MaterialId(pub String);

impl View for MaterialId {
    type V = Seq<char>;

    open spec fn view(&self) -> Seq<char> {
        self.0@
    }
}

impl Clone for MaterialId {
    fn clone(&self) -> (r: Self)
        ensures
            r == *self,
    {
        MaterialId(self.0.clone())
    }
}

impl MaterialId {
    pub fn new(s: &str) -> (r: Self)
        ensures
            r@ == s@,
    {
        MaterialId(s.to_owned())
    }

    pub fn as_str(&self) -> (r: &str)
        ensures
            r@ == self@,
    {
        self.0.as_str()
    }
}

/// A WGSL shader program (hot-recompilable).
#[derive(Debug, PartialEq, Eq, PartialOrd, Ord, Hash)]
pub struct ShaderId(pub String);

impl View for ShaderId {
    type V = Seq<char>;

    open spec fn view(&self) -> Seq<char> {
        self.0@
    }
}

impl Clone for ShaderId {
    fn clone(&self) -> (r: Self)
        ensures
            r == *self,
    {
        ShaderId(self.0.clone())
    }
}

impl ShaderId {
    pub fn new(s: &str) -> (r: Self)
        ensures
            r@ == s@,
    {
        ShaderId(s.to_owned())
    }

    pub fn as_str(&self) -> (r: &str)
        ensures
            r@ == self@,
    {
        self.0.as_str()
    }
}

/// A non-player creature / summon archetype.
#[derive(Debug, PartialEq, Eq, PartialOrd, Ord, Hash)]
pub struct MobId(pub String);

impl View for MobId {
    type V = Seq<char>;

    open spec fn view(&self) -> Seq<char> {
        self.0@
    }
}

impl Clone for MobId {
    fn clone(&self) -> (r: Self)
        ensures
            r == *self,
    {
        MobId(self.0.clone())
    }
}

impl MobId {
    pub fn new(s: &str) -> (r: Self)
        ensures
            r@ == s@,
    {
        MobId(s.to_owned())
    }

    pub fn as_str(&self) -> (r: &str)
        ensures
            r@ == self@,
    {
        self.0.as_str()
    }
}

/// A procedural objective.
#[derive(Debug, PartialEq, Eq, PartialOrd, Ord, Hash)]
pub struct MissionId(pub String);

impl View for MissionId {
    type V = Seq<char>;

    open spec fn view(&self) -> Seq<char> {
        self.0@
    }
}

impl Clone for MissionId {
    fn clone(&self) -> (r: Self)
        ensures
            r == *self,
    {
        MissionId(self.0.clone())
    }
}

impl MissionId {
    pub fn new(s: &str) -> (r: Self)
        ensures
            r@ == s@,
    {
        MissionId(s.to_owned())
    }

    pub fn as_str(&self) -> (r: &str)
        ensures
            r@ == self@,
    {
        self.0.as_str()
    }
}

/// A magic element (fire, frost, void, life, ...). Data-driven.
#[derive(Debug, PartialEq, Eq, PartialOrd, Ord, Hash)]
pub struct ElementId(pub String);

impl View for ElementId {
    type V = Seq<char>;

    open spec fn view(&self) -> Seq<char> {
        self.0@
    }
}

impl Clone for ElementId {
    fn clone(&self) -> (r: Self)
        ensures
            r == *self,
    {
        ElementId(self.0.clone())
    }
}

impl ElementId {
    pub fn new(s: &str) -> (r: Self)
        ensures
            r@ == s@,
    {
        ElementId(s.to_owned())
    }

    pub fn as_str(&self) -> (r: &str)
        ensures
            r@ == self@,
    {
        self.0.as_str()
    }
}

/// A named, weighted drop pool.
#[derive(Debug, PartialEq, Eq, PartialOrd, Ord, Hash)]
pub struct LootTableId(pub String);

impl View for LootTableId {
    type V = Seq<char>;

    open spec fn view(&self) -> Seq<char> {
        self.0@
    }
}

impl Clone for LootTableId {
    fn clone(&self) -> (r: Self)
        ensures
            r == *self,
    {
        LootTableId(self.0.clone())
    }
}

impl LootTableId {
    pub fn new(s: &str) -> (r: Self)
        ensures
            r@ == s@,
    {
        LootTableId(s.to_owned())
    }

    pub fn as_str(&self) -> (r: &str)
        ensures
            r@ == self@,
    {
        self.0.as_str()
    }
}

/// A rollable magic property.
#[derive(Debug, PartialEq, Eq, PartialOrd, Ord, Hash)]
pub struct AffixId(pub String);

impl View for AffixId {
    type V = Seq<char>;

    open spec fn view(&self) -> Seq<char> {
        self.0@
    }
}

impl Clone for AffixId {
    fn clone(&self) -> (r: Self)
        ensures
            r == *self,
    {
        AffixId(self.0.clone())
    }
}

impl AffixId {
    pub fn new(s: &str) -> (r: Self)
        ensures
            r@ == s@,
    {
        AffixId(s.to_owned())
    }

    pub fn as_str(&self) -> (r: &str)
        ensures
            r@ == self@,
    {
        self.0.as_str()
    }
}

/// A socketable gem or rune.
#[derive(Debug, PartialEq, Eq, PartialOrd, Ord, Hash)]
pub struct GemId(pub String);

impl View for GemId {
    type V = Seq<char>;

    open spec fn view(&self) -> Seq<char> {
        self.0@
    }
}

impl Clone for GemId {
    fn clone(&self) -> (r: Self)
        ensures
            r == *self,
    {
        GemId(self.0.clone())
    }
}

impl GemId {
    pub fn new(s: &str) -> (r: Self)
        ensures
            r@ == s@,
    {
        GemId(s.to_owned())
    }

    pub fn as_str(&self) -> (r: &str)
        ensures
            r@ == self@,
    {
        self.0.as_str()
    }
}

/// A gear set.
#[derive(Debug, PartialEq, Eq, PartialOrd, Ord, Hash)]
pub struct SetId(pub String);

impl View for SetId {
    type V = Seq<char>;

    open spec fn view(&self) -> Seq<char> {
        self.0@
    }
}

impl Clone for SetId {
    fn clone(&self) -> (r: Self)
        ensures
            r == *self,
    {
        SetId(self.0.clone())
    }
}

impl SetId {
    pub fn new(s: &str) -> (r: Self)
        ensures
            r@ == s@,
    {
        SetId(s.to_owned())
    }

    pub fn as_str(&self) -> (r: &str)
        ensures
            r@ == self@,
    {
        self.0.as_str()
    }
}

/// A permanent applied enchant.
#[derive(Debug, PartialEq, Eq, PartialOrd, Ord, Hash)]
pub struct EnchantId(pub String);

impl View for EnchantId {
    type V = Seq<char>;

    open spec fn view(&self) -> Seq<char> {
        self.0@
    }
}

impl Clone for EnchantId {
    fn clone(&self) -> (r: Self)
        ensures
            r == *self,
    {
        EnchantId(self.0.clone())
    }
}

impl EnchantId {
    pub fn new(s: &str) -> (r: Self)
        ensures
            r@ == s@,
    {
        EnchantId(s.to_owned())
    }

    pub fn as_str(&self) -> (r: &str)
        ensures
            r@ == self@,
    {
        self.0.as_str()
    }
}

/// A runeword recipe.
#[derive(Debug, PartialEq, Eq, PartialOrd, Ord, Hash)]
pub struct RunewordId(pub String);

impl View for RunewordId {
    type V = Seq<char>;

    open spec fn view(&self) -> Seq<char> {
        self.0@
    }
}

impl Clone for RunewordId {
    fn clone(&self) -> (r: Self)
        ensures
            r == *self,
    {
        RunewordId(self.0.clone())
    }
}

impl RunewordId {
    pub fn new(s: &str) -> (r: Self)
        ensures
            r@ == s@,
    {
        RunewordId(s.to_owned())
    }

    pub fn as_str(&self) -> (r: &str)
        ensures
            r@ == self@,
    {
        self.0.as_str()
    }
}

/// A rule that populates the open world.
#[derive(Debug, PartialEq, Eq, PartialOrd, Ord, Hash)]
pub struct SpawnRuleId(pub String);

impl View for SpawnRuleId {
    type V = Seq<char>;

    open spec fn view(&self) -> Seq<char> {
        self.0@
    }
}

impl Clone for SpawnRuleId {
    fn clone(&self) -> (r: Self)
        ensures
            r == *self,
    {
        SpawnRuleId(self.0.clone())
    }
}

impl SpawnRuleId {
    pub fn new(s: &str) -> (r: Self)
        ensures
            r@ == s@,
    {
        SpawnRuleId(s.to_owned())
    }

    pub fn as_str(&self) -> (r: &str)
        ensures
            r@ == self@,
    {
        self.0.as_str()
    }
}

/// A data-driven event rule.
#[derive(Debug, PartialEq, Eq, PartialOrd, Ord, Hash)]
pub struct TriggerId(pub String);

impl View for TriggerId {
    type V = Seq<char>;

    open spec fn view(&self) -> Seq<char> {
        self.0@
    }
}

impl Clone for TriggerId {
    fn clone(&self) -> (r: Self)
        ensures
            r == *self,
    {
        TriggerId(self.0.clone())
    }
}

impl TriggerId {
    pub fn new(s: &str) -> (r: Self)
        ensures
            r@ == s@,
    {
        TriggerId(s.to_owned())
    }

    pub fn as_str(&self) -> (r: &str)
        ensures
            r@ == self@,
    {
        self.0.as_str()
    }
}

/// A match rule-set.
#[derive(Debug, PartialEq, Eq, PartialOrd, Ord, Hash)]
pub struct GameModeId(pub String);

impl View for GameModeId {
    type V = Seq<char>;

    open spec fn view(&self) -> Seq<char> {
        self.0@
    }
}

impl Clone for GameModeId {
    fn clone(&self) -> (r: Self)
        ensures
            r == *self,
    {
        GameModeId(self.0.clone())
    }
}

impl GameModeId {
    pub fn new(s: &str) -> (r: Self)
        ensures
            r@ == s@,
    {
        GameModeId(s.to_owned())
    }

    pub fn as_str(&self) -> (r: &str)
        ensures
            r@ == self@,
    {
        self.0.as_str()
    }
}

} // verus!
