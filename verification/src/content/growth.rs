//! Packs that grow: what is added to a valid pack leaves it valid as long as the additions
//! refer to what the grown pack defines.

use crate::content::closed::{all_known, valid_means_closed};
use crate::content::gem::GemDef;
use crate::content::ids::ItemId;
use crate::content::keyed::{defines, keys, Keyed};
use crate::content::pack::ContentPack;
use crate::content::loot::LootEntry;
use crate::content::sheet::loot::{all_drops, drops, EntryRow};
use crate::content::sheet::{counts, lists, used, Named};
use crate::content::validate::{carries, symbols};
use vstd::prelude::*;

verus! {

/// The list begins with what it was before.
pub open spec fn extends<T>(before: Seq<T>, after: Seq<T>) -> bool {
    &&& before.len() <= after.len()
    &&& forall|i: int| 0 <= i < before.len() ==> #[trigger] after[i] == before[i]
}

/// What was defined stays defined.
pub proof fn keys_grow<T: Keyed>(before: Seq<T>, after: Seq<T>)
    requires
        extends(before, after),
    ensures
        keys(before).subset_of(keys(after)),
{
    assert forall|k: Seq<char>| keys(before).contains(k) implies keys(after).contains(k) by {
        let i = choose|i: int| 0 <= i < before.len() && #[trigger] before[i].key() == k;
        assert(after[i].key() == k);
    }
}

proof fn symbols_grow(before: Seq<GemDef>, after: Seq<GemDef>)
    requires
        extends(before, after),
    ensures
        symbols(before).subset_of(symbols(after)),
{
    assert forall|k: Seq<char>| symbols(before).contains(k) implies symbols(after).contains(k) by {
        let i = choose|i: int| 0 <= i < before.len() && #[trigger] carries(before[i], k);
        assert(carries(after[i], k));
    }
}

/// Each definition of a list is known under its key.
pub proof fn defined<T: Keyed>(defs: Seq<T>, i: int)
    requires
        0 <= i < defs.len(),
    ensures
        keys(defs).contains(defs[i].key()),
{
    assert(defines(defs, defs[i].key()));
}

/// The first `n` of the names are all known.
pub open spec fn row_known(n: u8, names: Seq<&'static str>, known: Set<Seq<char>>) -> bool {
    forall|k: int| 0 <= k < used(n, names.len()) ==> known.contains(#[trigger] names[k]@)
}

/// A list read from names that are known refers to known things only.
pub proof fn listed_known<T: Named + Keyed>(
    list: Seq<T>,
    n: u8,
    names: Seq<&'static str>,
    known: Set<Seq<char>>,
)
    requires
        lists(list, n, names),
        row_known(n, names, known),
        forall|t: T| #[trigger] t.key() == t.text(),
    ensures
        all_known(list, known),
{
    assert forall|i: int| 0 <= i < list.len() implies known.contains(#[trigger] list[i].key()) by {
        assert(list[i].text() == names[i]@);
    }
}

/// The first `n` of the names, each with its amount, are all known.
pub open spec fn pairs_known(
    n: u8,
    rows: Seq<(&'static str, u16)>,
    known: Set<Seq<char>>,
) -> bool {
    forall|k: int| 0 <= k < used(n, rows.len()) ==> known.contains((#[trigger] rows[k]).0@)
}

/// The same for names with amounts.
pub proof fn counted_known(
    list: Seq<(ItemId, u16)>,
    n: u8,
    rows: Seq<(&'static str, u16)>,
    known: Set<Seq<char>>,
)
    requires
        counts(list, n, rows),
        pairs_known(n, rows, known),
    ensures
        all_known(list, known),
{
    assert forall|i: int| 0 <= i < list.len() implies known.contains(#[trigger] list[i].key()) by {
        assert(list[i].0.text() == rows[i].0@);
    }
}

/// The items of the first `n` entries are all known.
pub open spec fn entries_known(n: u8, rows: Seq<EntryRow>, known: Set<Seq<char>>) -> bool {
    forall|k: int| 0 <= k < used(n, rows.len()) ==> known.contains((#[trigger] rows[k]).0@)
}

/// The same for loot entries.
pub proof fn entered_known(list: Seq<LootEntry>, n: u8, rows: Seq<EntryRow>, known: Set<Seq<char>>)
    requires
        all_drops(list, n, rows),
        entries_known(n, rows, known),
    ensures
        all_known(list, known),
{
    assert forall|i: int| 0 <= i < list.len() implies known.contains(#[trigger] list[i].key()) by {
        assert(drops(list[i], rows[i]));
    }
}

/// Appends the new entries.
pub fn extend<T>(list: &mut Vec<T>, more: Vec<T>)
    ensures
        extends(old(list)@, final(list)@),
        final(list)@.skip(old(list)@.len() as int) == more@,
        final(list)@.len() == old(list)@.len() + more@.len(),
{
    let ghost before = list@;
    let ghost added = more@;
    let mut more = more;
    list.append(&mut more);
    assert(list@.skip(before.len() as int) =~= added);
}

impl ContentPack {
    /// Every list that validation looks at begins with what it was before.
    pub open spec fn grown_from(self, old: ContentPack) -> bool {
        &&& extends(old.spells@, self.spells@)
        &&& extends(old.items@, self.items@)
        &&& extends(old.abilities@, self.abilities@)
        &&& extends(old.tech.nodes@, self.tech.nodes@)
        &&& extends(old.statuses@, self.statuses@)
        &&& extends(old.mobs@, self.mobs@)
        &&& extends(old.game_modes@, self.game_modes@)
        &&& extends(old.loot_tables@, self.loot_tables@)
        &&& extends(old.spawn_rules@, self.spawn_rules@)
        &&& extends(old.triggers@, self.triggers@)
        &&& extends(old.gems@, self.gems@)
        &&& extends(old.item_sets@, self.item_sets@)
        &&& extends(old.runewords@, self.runewords@)
    }

    /// No reference of what was added dangles.
    pub open spec fn additions_closed(self, old: ContentPack) -> bool {
        &&& forall|i: int|
            old.abilities@.len() <= i < self.abilities@.len() ==> #[trigger] self.ability_closed(i)
        &&& forall|i: int|
            old.tech.nodes@.len() <= i < self.tech.nodes@.len()
                ==> #[trigger] self.tech_node_closed(i)
        &&& forall|i: int|
            old.spells@.len() <= i < self.spells@.len() ==> #[trigger] self.spell_closed(i)
        &&& forall|i: int|
            old.game_modes@.len() <= i < self.game_modes@.len()
                ==> #[trigger] self.game_mode_closed(i)
        &&& forall|i: int|
            old.loot_tables@.len() <= i < self.loot_tables@.len()
                ==> #[trigger] self.loot_table_closed(i)
        &&& forall|i: int|
            old.spawn_rules@.len() <= i < self.spawn_rules@.len()
                ==> #[trigger] self.spawn_rule_closed(i)
        &&& forall|i: int|
            old.triggers@.len() <= i < self.triggers@.len() ==> #[trigger] self.trigger_closed(i)
        &&& forall|i: int|
            old.item_sets@.len() <= i < self.item_sets@.len()
                ==> #[trigger] self.item_set_closed(i)
        &&& forall|i: int|
            old.runewords@.len() <= i < self.runewords@.len()
                ==> #[trigger] self.runeword_closed(i)
    }

    /// A valid pack stays valid when it grows by definitions whose references resolve in the
    /// grown pack.
    pub proof fn growth_keeps_packs_valid(self, old: ContentPack)
        requires
            old.problem() is None,
            self.grown_from(old),
            self.additions_closed(old),
        ensures
            self.problem() is None,
    {
        valid_means_closed(old);
        keys_grow(old.spells@, self.spells@);
        keys_grow(old.items@, self.items@);
        keys_grow(old.abilities@, self.abilities@);
        keys_grow(old.tech.nodes@, self.tech.nodes@);
        keys_grow(old.statuses@, self.statuses@);
        keys_grow(old.mobs@, self.mobs@);
        keys_grow(old.loot_tables@, self.loot_tables@);
        symbols_grow(old.gems@, self.gems@);
        assert forall|i: int| 0 <= i < self.abilities@.len() implies #[trigger] self.ability_closed(
            i,
        ) by {
            if i < old.abilities@.len() {
                assert(old.ability_closed(i));
            }
        }
        assert forall|i: int|
            0 <= i < self.tech.nodes@.len() implies #[trigger] self.tech_node_closed(i) by {
            if i < old.tech.nodes@.len() {
                assert(old.tech_node_closed(i));
            }
        }
        assert forall|i: int| 0 <= i < self.spells@.len() implies #[trigger] self.spell_closed(
            i,
        ) by {
            if i < old.spells@.len() {
                assert(old.spell_closed(i));
            }
        }
        assert forall|i: int|
            0 <= i < self.game_modes@.len() implies #[trigger] self.game_mode_closed(i) by {
            if i < old.game_modes@.len() {
                assert(old.game_mode_closed(i));
            }
        }
        assert forall|i: int|
            0 <= i < self.loot_tables@.len() implies #[trigger] self.loot_table_closed(i) by {
            if i < old.loot_tables@.len() {
                assert(old.loot_table_closed(i));
            }
        }
        assert forall|i: int|
            0 <= i < self.spawn_rules@.len() implies #[trigger] self.spawn_rule_closed(i) by {
            if i < old.spawn_rules@.len() {
                assert(old.spawn_rule_closed(i));
            }
        }
        assert forall|i: int| 0 <= i < self.triggers@.len() implies #[trigger] self.trigger_closed(
            i,
        ) by {
            if i < old.triggers@.len() {
                assert(old.trigger_closed(i));
                self.trigger_stays_closed(old, i);
            }
        }
        assert forall|i: int|
            0 <= i < self.item_sets@.len() implies #[trigger] self.item_set_closed(i) by {
            if i < old.item_sets@.len() {
                assert(old.item_set_closed(i));
            }
        }
        assert forall|i: int|
            0 <= i < self.runewords@.len() implies #[trigger] self.runeword_closed(i) by {
            if i < old.runewords@.len() {
                assert(old.runeword_closed(i));
            }
        }
        valid_means_closed(self);
    }

    proof fn trigger_stays_closed(self, old: ContentPack, i: int)
        requires
            self.grown_from(old),
            0 <= i < old.triggers@.len(),
            old.trigger_closed(i),
        ensures
            self.trigger_closed(i),
    {
        keys_grow(old.spells@, self.spells@);
        keys_grow(old.items@, self.items@);
        keys_grow(old.tech.nodes@, self.tech.nodes@);
        keys_grow(old.statuses@, self.statuses@);
        keys_grow(old.mobs@, self.mobs@);
        keys_grow(old.loot_tables@, self.loot_tables@);
        let t = old.triggers@[i];
        assert(self.event_closed(t.on));
        assert forall|j: int| 0 <= j < t.conditions@.len() implies self.condition_closed(
            #[trigger] t.conditions@[j],
        ) by {
            assert(old.condition_closed(t.conditions@[j]));
        }
        assert forall|j: int| 0 <= j < t.actions@.len() implies self.action_closed(
            #[trigger] t.actions@[j],
        ) by {
            assert(old.action_closed(t.actions@[j]));
        }
    }
}

} // verus!
