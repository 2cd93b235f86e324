//! Affixes: the rollable magic properties that make two copies of the same base item
//! play differently. A dropped instance rolls up to its rarity's affix budget from the
//! pool, filtered by the item's slot and `affix_tags`.
//!
//! An affix is a *range*: `roll_lo`..`roll_hi` of [`StatMods`] plus an optional proc.
//! At drop time the forge rolls a `t in 0..1` per affix and lerps the stat block, so a
//! "Flaming" prefix can land anywhere from a weak to a god-tier roll — the engine of
//! ARPG chase. Naming a rolled item concatenates the highest-tier prefix word, the base
//! name, and the highest-tier suffix word: *"Flaming Ember Staff of the Bear"*.

use crate::content::ids::AffixId;
use crate::content::item::{
    holds_slot, holds_text, owned_texts, texts, words, EquipSlot, ItemTrigger, StatMods,
};
use crate::scalar::{dec, decimal, Scalar, ONE};
use vstd::prelude::*;

verus! {

/// Whether an affix reads as a leading adjective or a trailing "of the X" phrase. An
/// item may carry at most one *naming* prefix and one *naming* suffix, but several
/// non-naming affixes (their words are not shown, only their stats).
#[derive(Debug, Clone, Copy, PartialEq, Eq, Structural)]
pub enum AffixKind {
    Prefix,
    Suffix,
}

/// One rollable property.
#[derive(Debug, Clone)]
pub struct AffixDef {
    pub id: AffixId,
    pub kind: AffixKind,
    /// The word used in the item name (e.g. "Flaming", "of the Bear"). Empty = hidden.
    pub word: String,
    /// Tier 1 (lowliest) .. 8 (mythic). Higher tiers gate to higher item levels and
    /// roll bigger; magic-find biases the tier draw upward.
    pub tier: u8,
    /// Relative draw weight within the pool (after slot/tag/level filtering).
    pub weight: Scalar,
    /// Minimum item level required to roll this affix.
    pub level_req: u32,
    /// Slots this affix may appear on. Empty = any equippable slot.
    pub slots: Vec<EquipSlot>,
    /// Tags this affix belongs to; an item rolls only affixes sharing one of its
    /// `affix_tags` (plus the universal pool, tag `"universal"`).
    pub tags: Vec<String>,
    /// Low end of the stat roll (t = 0).
    pub roll_lo: StatMods,
    /// High end of the stat roll (t = 1).
    pub roll_hi: StatMods,
    /// An optional proc this affix grants (its magnitude does not roll; the stat block
    /// does). This is how a suffix like "of Storms" adds a chain-lightning-on-hit.
    pub proc: Option<ItemTrigger>,
}

impl AffixDef {
    /// Resolve the concrete stat block for a rolled `t in 0..1`.
    pub fn roll<A: Fn(Scalar, Scalar) -> Scalar, M: Fn(Scalar, Scalar) -> Scalar>(
        &self,
        t: Scalar,
        plus: &A,
        times: &M,
    ) -> (r: StatMods)
        requires
            forall|x: Scalar, y: Scalar| call_requires(*plus, (x, y)),
            forall|x: Scalar, y: Scalar| call_requires(*times, (x, y)),
        ensures
            StatMods::is_blend(
                self.roll_lo,
                self.roll_hi,
                t.clamped(Scalar { bits: 0 }, Scalar { bits: ONE }),
                *plus,
                *times,
                r,
            ),
    {
        let t = t.clamp(Scalar { bits: 0 }, Scalar { bits: ONE });
        StatMods::lerp(&self.roll_lo, &self.roll_hi, t, plus, times)
    }

    /// Whether this affix may appear on an item in `slot` carrying `tags` at `ilvl`: the
    /// item is of a high enough level, the slot is among the affix's (or the affix names
    /// none and the slot is one that is worn), and the affix is universal or shares a tag
    /// with the item.
    pub open spec fn allowed(self, slot: EquipSlot, tags: Seq<Seq<char>>, ilvl: u32) -> bool {
        &&& ilvl >= self.level_req
        &&& (self.slots@.len() == 0 && slot !is Unworn) || self.slots@.contains(slot)
        &&& texts(self.tags@).contains("universal"@) || exists|i: int|
            0 <= i < tags.len() && texts(self.tags@).contains(#[trigger] tags[i])
    }

    /// Whether this affix may appear on an item in `slot` carrying `tags` at `ilvl`.
    pub fn eligible(&self, slot: EquipSlot, tags: &[String], ilvl: u32) -> (r: bool)
        ensures
            r == self.allowed(slot, texts(tags@), ilvl),
    {
        if ilvl < self.level_req {
            return false;
        }
        let placed = if self.slots.len() == 0 {
            !matches!(slot, EquipSlot::Unworn)
        } else {
            holds_slot(&self.slots, slot)
        };
        if !placed {
            return false;
        }
        if holds_text(self.tags.as_slice(), "universal") {
            return true;
        }
        let mut i: usize = 0;
        while i < tags.len()
            invariant
                i <= tags.len(),
                ilvl >= self.level_req,
                (self.slots@.len() == 0 && slot !is Unworn) || self.slots@.contains(slot),
                forall|k: int|
                    0 <= k < i ==> !texts(self.tags@).contains(#[trigger] texts(tags@)[k]),
            decreases tags.len() - i,
        {
            if holds_text(self.tags.as_slice(), tags[i].as_str()) {
                assert(texts(self.tags@).contains(texts(tags@)[i as int]));
                return true;
            }
            assert(texts(tags@)[i as int] == tags@[i as int]@);
            i = i + 1;
        }
        false
    }
}

/// The item level at which affixes of a tier begin: the first tier at 0, eight levels to a
/// tier.
pub open spec fn tier_level(tier: u8) -> u32 {
    if tier == 0 {
        0
    } else {
        ((tier - 1) * 8) as u32
    }
}

/// A terse builder so the gear pack reads as a table rather than 20-line literals.
pub fn affix(id: &str, kind: AffixKind, word: &str, tier: u8) -> (r: AffixDef)
    ensures
        r.id@ == id@,
        r.kind == kind,
        r.word@ == word@,
        r.tier == tier,
        r.weight == decimal(100, 0),
        r.level_req == tier_level(tier),
        r.slots@.len() == 0,
        texts(r.tags@) == seq!["universal"@],
        r.roll_lo.zeroed(),
        r.roll_hi.zeroed(),
        r.proc is None,
{
    let above_first: u8 = if tier == 0 {
        0
    } else {
        tier - 1
    };
    let mut tags: Vec<String> = Vec::new();
    tags.push("universal".to_owned());
    assert(texts(tags@) =~= seq!["universal"@]);
    AffixDef {
        id: AffixId::new(id),
        kind,
        word: word.to_owned(),
        tier,
        weight: dec(100, 0),
        level_req: above_first as u32 * 8,
        slots: Vec::new(),
        tags,
        roll_lo: StatMods::default(),
        roll_hi: StatMods::default(),
        proc: None,
    }
}

impl AffixDef {
    pub fn tagged(self, tags: &[&str]) -> (r: Self)
        ensures
            texts(r.tags@) == words(tags@),
            r == (AffixDef { tags: r.tags, ..self }),
    {
        let mut affix = self;
        affix.tags = owned_texts(tags);
        affix
    }

    pub fn on_slots(self, slots: &[EquipSlot]) -> (r: Self)
        ensures
            r.slots@ == slots@,
            r == (AffixDef { slots: r.slots, ..self }),
    {
        let mut list: Vec<EquipSlot> = Vec::new();
        let mut i: usize = 0;
        while i < slots.len()
            invariant
                i <= slots.len(),
                list@ == slots@.take(i as int),
            decreases slots.len() - i,
        {
            list.push(slots[i]);
            assert(list@ =~= slots@.take(i + 1));
            i = i + 1;
        }
        assert(list@ =~= slots@);
        let mut affix = self;
        affix.slots = list;
        affix
    }

    pub fn range(self, lo: StatMods, hi: StatMods) -> (r: Self)
        ensures
            r == (AffixDef { roll_lo: lo, roll_hi: hi, ..self }),
    {
        let mut affix = self;
        affix.roll_lo = lo;
        affix.roll_hi = hi;
        affix
    }

    pub fn weighted(self, w: Scalar) -> (r: Self)
        ensures
            r == (AffixDef { weight: w, ..self }),
    {
        let mut affix = self;
        affix.weight = w;
        affix
    }

    pub fn with_proc(self, p: ItemTrigger) -> (r: Self)
        ensures
            r == (AffixDef { proc: Some(p), ..self }),
    {
        let mut affix = self;
        affix.proc = Some(p);
        affix
    }
}

/// An affix is rolled where it belongs and nowhere else: not below its level; not on a slot that it
/// does not name, or that is not worn if it names none; not on an item that shares no tag with it,
/// unless it is universal. Where none of these stands against it, it may be rolled.
pub proof fn affixes_roll_where_they_belong(
    a: AffixDef,
    slot: EquipSlot,
    tags: Seq<Seq<char>>,
    ilvl: u32,
)
    ensures
        ilvl < a.level_req ==> !a.allowed(slot, tags, ilvl),
        a.slots@.len() > 0 && !a.slots@.contains(slot) ==> !a.allowed(slot, tags, ilvl),
        a.slots@.len() == 0 && slot is Unworn ==> !a.allowed(slot, tags, ilvl),
        (forall|i: int|
            0 <= i < a.tags@.len() ==> (#[trigger] a.tags@[i])@ != "universal"@ && !tags.contains(
                a.tags@[i]@,
            )) ==> !a.allowed(slot, tags, ilvl),
        ilvl >= a.level_req && (a.slots@.contains(slot) || a.slots@.len() == 0 && !(slot is Unworn)) && (
        exists|i: int|
            0 <= i < a.tags@.len() && ((#[trigger] a.tags@[i])@ == "universal"@ || tags.contains(
                a.tags@[i]@,
            ))) ==> a.allowed(slot, tags, ilvl),
{
    let own = texts(a.tags@);
    if forall|i: int|
        0 <= i < a.tags@.len() ==> (#[trigger] a.tags@[i])@ != "universal"@ && !tags.contains(
            a.tags@[i]@,
        ) {
        if own.contains("universal"@) {
            let k = choose|k: int| 0 <= k < own.len() && own[k] == "universal"@;
            assert(a.tags@[k]@ == "universal"@);
        }
        assert forall|i: int| 0 <= i < tags.len() implies !own.contains(#[trigger] tags[i]) by {
            if own.contains(tags[i]) {
                let k = choose|k: int| 0 <= k < own.len() && own[k] == tags[i];
                assert(a.tags@[k]@ == tags[i]);
                assert(tags.contains(a.tags@[k]@));
            }
        }
    }
    if exists|i: int|
        0 <= i < a.tags@.len() && ((#[trigger] a.tags@[i])@ == "universal"@ || tags.contains(
            a.tags@[i]@,
        )) {
        let i = choose|i: int|
            0 <= i < a.tags@.len() && ((#[trigger] a.tags@[i])@ == "universal"@ || tags.contains(
                a.tags@[i]@,
            ));
        assert(own[i] == a.tags@[i]@);
        if a.tags@[i]@ != "universal"@ {
            let k = choose|k: int| 0 <= k < tags.len() && tags[k] == a.tags@[i]@;
            assert(own.contains(tags[k]));
        } else {
            assert(own.contains("universal"@));
        }
    }
}

/// A better item rolls at least what a lesser one does: a higher level, or more tags, never loses an
/// affix.
pub proof fn better_items_roll_more(
    a: AffixDef,
    slot: EquipSlot,
    tags: Seq<Seq<char>>,
    more: Seq<Seq<char>>,
    ilvl: u32,
    higher: u32,
)
    requires
        a.allowed(slot, tags, ilvl),
        ilvl <= higher,
        forall|i: int| 0 <= i < tags.len() ==> more.contains(#[trigger] tags[i]),
    ensures
        a.allowed(slot, more, higher),
{
    if !texts(a.tags@).contains("universal"@) {
        let i = choose|i: int| 0 <= i < tags.len() && texts(a.tags@).contains(#[trigger] tags[i]);
        let k = choose|k: int| 0 <= k < more.len() && more[k] == tags[i];
        assert(texts(a.tags@).contains(more[k]));
    }
}

/// Tiers come eight levels apart, from the first, which is there from the start.
pub proof fn tiers_come_eight_levels_apart(tier: u8)
    ensures
        tier_level(0) == 0,
        tier_level(1) == 0,
        1 <= tier < 255 ==> tier_level((tier + 1) as u8) == tier_level(tier) + 8,
{
}

} // verus!
