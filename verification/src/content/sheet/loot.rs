//! Loot tables as rows.

use crate::content::ids::{ItemId, LootTableId};
use crate::content::loot::{LootEntry, LootTableDef};
use crate::content::sheet::{milli, read_some, thousandths, used};
use crate::scalar::decimal;
use vstd::prelude::*;

verus! {

/// `(item, weight, fewest, most, rarity bonus)`.
pub type EntryRow = (&'static str, i32, u16, u16, i32);

/// An unused place.
pub const NO_ENTRY: EntryRow = ("", 0, 0, 0, 0);

/// `(id, name, entries, rolls, level scaling)`.
pub type LootRow = (&'static str, &'static str, (u8, [EntryRow; 6]), u8, i32);

/// The entry is what the row says.
pub open spec fn drops(e: LootEntry, row: EntryRow) -> bool {
    &&& e.item@ == row.0@
    &&& e.weight == thousandths(row.1)
    &&& e.min == row.2
    &&& e.max == row.3
    &&& e.rarity_bonus == thousandths(row.4)
}

fn entry(row: EntryRow) -> (r: LootEntry)
    ensures
        drops(r, row),
{
    LootEntry {
        item: ItemId::new(row.0),
        weight: milli(row.1),
        min: row.2,
        max: row.3,
        rarity_bonus: milli(row.4),
    }
}

/// The entries are the first `n` rows.
pub open spec fn all_drops(list: Seq<LootEntry>, n: u8, rows: Seq<EntryRow>) -> bool {
    &&& list.len() == used(n, rows.len())
    &&& forall|i: int| 0 <= i < list.len() ==> drops(#[trigger] list[i], rows[i])
}

/// The definition is what the row says.
pub open spec fn is_loot(d: LootTableDef, row: LootRow) -> bool {
    &&& d.id@ == row.0@
    &&& d.name@ == row.1@
    &&& all_drops(d.entries@, row.2.0, row.2.1@)
    &&& d.rolls == row.3
    &&& d.level_scaling == thousandths(row.4)
}

/// The list is what the table says.
pub open spec fn are_loot(list: Seq<LootTableDef>, rows: Seq<LootRow>) -> bool {
    &&& list.len() == rows.len()
    &&& forall|i: int| 0 <= i < list.len() ==> is_loot(#[trigger] list[i], rows[i])
}

/// Reads a row.
pub fn loot(row: LootRow) -> (r: LootTableDef)
    ensures
        is_loot(r, row),
{
    LootTableDef {
        id: LootTableId::new(row.0),
        name: row.1.to_owned(),
        entries: read_some(row.2.0, row.2.1.as_slice(), entry),
        rolls: row.3,
        level_scaling: milli(row.4),
    }
}

/// In the rows of loot tables, every column goes where it belongs.
pub proof fn loot_tables_are_read_by_column(row: LootRow, r: LootTableDef)
    requires
        call_ensures(loot, (row,), r),
    ensures
        r.id@ == row.0@,
        r.name@ == row.1@,
        all_drops(r.entries@, row.2.0, row.2.1@),
        r.rolls == row.3,
        r.level_scaling == decimal(row.4 as int, 3),
{
}

/// A table has as many entries as its row says, each with its own item, weight, range and bonus.
pub proof fn entries_are_read_by_column(row: LootRow, r: LootTableDef, i: int)
    requires
        call_ensures(loot, (row,), r),
        0 <= i < r.entries@.len(),
    ensures
        r.entries@.len() == if row.2.0 < 6 {
            row.2.0 as nat
        } else {
            6
        },
        r.entries@[i].item@ == row.2.1@[i].0@,
        r.entries@[i].weight == decimal(row.2.1@[i].1 as int, 3),
        r.entries@[i].min == row.2.1@[i].2,
        r.entries@[i].max == row.2.1@[i].3,
        r.entries@[i].rarity_bonus == decimal(row.2.1@[i].4 as int, 3),
{
    assert(drops(r.entries@[i], row.2.1@[i]));
}

} // verus!
