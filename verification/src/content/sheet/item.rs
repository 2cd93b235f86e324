//! Items as rows.

use crate::content::ids::ItemId;
use crate::content::item::{CraftRecipe, EquipSlot, ItemDef, Rarity};
use crate::content::sheet::stats::{block, mods, Line};
use crate::content::sheet::{count, counts, list, lists, refer, refers};
use vstd::prelude::*;

verus! {

/// What is worked into an item, and the tech node that teaches it. Without inputs there is
/// no recipe.
pub type CraftRow = ((u8, [(&'static str, u16); 2]), &'static str);

/// No recipe.
pub const NO_RECIPE: CraftRow = ((0, [("", 0), ("", 0)]), "");

/// `(id, name, tooltip, rarity, slot, stats, spells granted, movement granted, abilities
/// granted, material, (whether it stacks, how high), spell on use, level, recipe)`.
pub type ItemRow = (
    &'static str,
    &'static str,
    &'static str,
    Rarity,
    EquipSlot,
    [Line; 5],
    (u8, [&'static str; 3]),
    (u8, [&'static str; 2]),
    (u8, [&'static str; 1]),
    &'static str,
    (bool, u16),
    &'static str,
    u32,
    CraftRow,
);

/// The recipe is the one that the row names.
pub open spec fn crafts(recipe: Option<CraftRecipe>, row: CraftRow) -> bool {
    match recipe {
        Some(r) => row.0.0 != 0 && counts(r.inputs@, row.0.0, row.0.1@) && refers(
            r.tech_req,
            row.1@,
        ),
        None => row.0.0 == 0,
    }
}

fn craft(row: CraftRow) -> (r: Option<CraftRecipe>)
    ensures
        crafts(r, row),
{
    if row.0.0 == 0 {
        None
    } else {
        Some(
            CraftRecipe {
                inputs: count(row.0.0, row.0.1.as_slice()),
                tech_req: refer(row.1),
            },
        )
    }
}

/// Nothing of the build layer: no procs, sockets, tags, set, upgrade or binding.
pub open spec fn plain(d: ItemDef) -> bool {
    &&& d.triggers@.len() == 0
    &&& d.base_sockets == 0
    &&& d.affix_tags@.len() == 0
    &&& d.set is None
    &&& d.upgrade is None
    &&& !d.unique
    &&& !d.soulbound
}

/// The definition is what the row says.
pub open spec fn is_item(d: ItemDef, row: ItemRow) -> bool {
    &&& d.id@ == row.0@
    &&& d.name@ == row.1@
    &&& d.description@ == row.2@
    &&& d.rarity == row.3
    &&& d.slot == row.4
    &&& d.stat_mods == block(row.5@)
    &&& lists(d.grants_spells@, row.6.0, row.6.1@)
    &&& lists(d.grants_movement@, row.7.0, row.7.1@)
    &&& lists(d.grants_abilities@, row.8.0, row.8.1@)
    &&& refers(d.material, row.9@)
    &&& d.stackable == row.10.0
    &&& d.max_stack == row.10.1
    &&& refers(d.on_use, row.11@)
    &&& d.level_req == row.12
    &&& crafts(d.craft, row.13)
    &&& plain(d)
}

/// The list is what the table says.
pub open spec fn are_items(list: Seq<ItemDef>, rows: Seq<ItemRow>) -> bool {
    &&& list.len() == rows.len()
    &&& forall|i: int| 0 <= i < list.len() ==> is_item(#[trigger] list[i], rows[i])
}

/// Reads a row.
pub fn item(row: ItemRow) -> (r: ItemDef)
    ensures
        is_item(r, row),
{
    ItemDef {
        id: ItemId::new(row.0),
        name: row.1.to_owned(),
        description: row.2.to_owned(),
        rarity: row.3,
        slot: row.4,
        stat_mods: mods(row.5.as_slice()),
        grants_spells: list(row.6.0, row.6.1.as_slice()),
        grants_movement: list(row.7.0, row.7.1.as_slice()),
        grants_abilities: list(row.8.0, row.8.1.as_slice()),
        material: refer(row.9),
        stackable: row.10.0,
        max_stack: row.10.1,
        on_use: refer(row.11),
        level_req: row.12,
        craft: craft(row.13),
        triggers: Vec::new(),
        base_sockets: 0,
        affix_tags: Vec::new(),
        set: None,
        upgrade: None,
        unique: false,
        soulbound: false,
    }
}

/// In the rows of items, every column goes where it belongs.
pub proof fn items_are_read_by_column(row: ItemRow, r: ItemDef)
    requires
        call_ensures(item, (row,), r),
    ensures
        r.id@ == row.0@,
        r.name@ == row.1@,
        r.description@ == row.2@,
        r.rarity == row.3,
        r.slot == row.4,
        r.stat_mods == block(row.5@),
        lists(r.grants_spells@, row.6.0, row.6.1@),
        lists(r.grants_movement@, row.7.0, row.7.1@),
        lists(r.grants_abilities@, row.8.0, row.8.1@),
        refers(r.material, row.9@),
        r.stackable == row.10.0,
        r.max_stack == row.10.1,
        refers(r.on_use, row.11@),
        r.level_req == row.12,
        crafts(r.craft, row.13),
        plain(r),
{
}

} // verus!
