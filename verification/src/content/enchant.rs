//! Enchants and runewords: the top of the customisation stack.
//!
//! - An [`EnchantDef`] is a permanent layer the player applies to one item (at most one
//!   enchant per item) at the forge, spending reagents. It adds stats and/or a proc on
//!   top of everything else — the final ~5% min-max.
//! - A [`RunewordDef`] is a named *sequence of runes*: socket exactly those rune gems,
//!   in order, into an eligible base, and the individual gem stats are **replaced** by a
//!   far stronger combined bonus (a granted spell, a build-defining proc). This is the
//!   classic "the runes are worthless apart, legendary together" chase.

use crate::content::ids::{EnchantId, RunewordId, SpellId};
use crate::content::item::{holds_slot, texts, EquipSlot, ItemTrigger, StatMods};
use crate::text::same;
use vstd::prelude::*;

verus! {

/// A permanent applied enchant.
#[derive(Debug, Clone)]
pub struct EnchantDef {
    pub id: EnchantId,
    pub name: String,
    /// Slots this enchant may be applied to. Empty = any equippable slot.
    pub slots: Vec<EquipSlot>,
    /// Minimum item level to apply.
    pub level_req: u32,
    pub mods: StatMods,
    pub proc: Option<ItemTrigger>,
    /// Whether this enchant is shown as a leading word in the item name.
    pub name_word: Option<String>,
}

/// A runeword recipe.
#[derive(Debug, Clone)]
pub struct RunewordDef {
    pub id: RunewordId,
    pub name: String,
    /// The exact ordered sequence of rune symbols (see [`crate::content::gem::GemDef::rune_symbol`])
    /// that must be socketed, in order, to activate the word.
    pub sequence: Vec<String>,
    /// Eligible base slots (e.g. a weapon runeword only activates in `Weapon`/`Staff`).
    pub base_slots: Vec<EquipSlot>,
    /// Minimum item level for the word to function.
    pub level_req: u32,
    /// The combined bonus, replacing the sockets' individual gem stats while active.
    pub mods: StatMods,
    pub triggers: Vec<ItemTrigger>,
    pub grants_spells: Vec<SpellId>,
}

impl RunewordDef {
    /// Does `socketed` (the ordered rune symbols actually in the item) activate this word
    /// in an item of `slot`? Requires an exact ordered match of the full sequence.
    pub fn matches(&self, slot: EquipSlot, socketed: &[String]) -> (r: bool)
        ensures
            r == ((self.base_slots@.len() == 0 || self.base_slots@.contains(slot)) && texts(socketed@)
                == texts(self.sequence@)),
    {
        if self.base_slots.len() != 0 && !holds_slot(&self.base_slots, slot) {
            return false;
        }
        if socketed.len() != self.sequence.len() {
            assert(texts(socketed@).len() != texts(self.sequence@).len());
            return false;
        }
        let mut i: usize = 0;
        while i < socketed.len()
            invariant
                i <= socketed.len(),
                socketed@.len() == self.sequence@.len(),
                forall|k: int| 0 <= k < i ==> #[trigger] socketed@[k]@ == self.sequence@[k]@,
            decreases socketed.len() - i,
        {
            if !same(socketed[i].as_str(), self.sequence[i].as_str()) {
                assert(texts(socketed@)[i as int] != texts(self.sequence@)[i as int]);
                return false;
            }
            i = i + 1;
        }
        assert(texts(socketed@) =~= texts(self.sequence@));
        true
    }
}

/// A runeword wants its runes, all of them, in order and nothing else, in a base that it names or in
/// any if it names none.
pub proof fn runewords_want_their_runes(w: RunewordDef, slot: EquipSlot, socketed: &[String], r: bool)
    requires
        call_ensures(RunewordDef::matches, (&w, slot, socketed), r),
    ensures
        r ==> socketed@.len() == w.sequence@.len() && forall|i: int|
            0 <= i < socketed@.len() ==> #[trigger] socketed@[i]@ == w.sequence@[i]@,
        r ==> w.base_slots@.len() == 0 || w.base_slots@.contains(slot),
        (w.base_slots@.len() == 0 || w.base_slots@.contains(slot)) && socketed@.len()
            == w.sequence@.len() && (forall|i: int|
            0 <= i < socketed@.len() ==> #[trigger] socketed@[i]@ == w.sequence@[i]@) ==> r,
{
    let (a, b) = (texts(socketed@), texts(w.sequence@));
    if a == b {
        assert(a.len() == b.len());
        assert forall|i: int| 0 <= i < socketed@.len() implies #[trigger] socketed@[i]@
            == w.sequence@[i]@ by {
            assert(a[i] == b[i]);
        }
    }
    if socketed@.len() == w.sequence@.len() && (forall|i: int|
        0 <= i < socketed@.len() ==> #[trigger] socketed@[i]@ == w.sequence@[i]@) {
        assert(a =~= b);
    }
}

} // verus!
