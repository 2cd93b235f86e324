//! Spawn rules as rows.

use crate::content::ids::{MobId, SpawnRuleId};
use crate::content::sheet::{list, lists, milli, refer, refers, thousandths};
use crate::content::spawn::{SpawnRuleDef, SpawnTrigger};
use crate::scalar::decimal;
use vstd::prelude::*;

verus! {

/// What drives a rule, numbers aside.
#[derive(Debug, Clone, Copy, PartialEq, Eq, Structural)]
pub enum Arrival {
    Continuous,
    Wave,
    OnZoneEnter,
    OnObjective,
}

/// `(id, name, mob, (what drives it, wave size, seconds between), most alive, biomes, level
/// scaling, loot table)`.
pub type SpawnRow = (
    &'static str,
    &'static str,
    &'static str,
    (Arrival, u32, i32),
    u32,
    (u8, [&'static str; 2]),
    i32,
    &'static str,
);

/// The trigger that the row names.
pub open spec fn arrives(row: (Arrival, u32, i32)) -> SpawnTrigger {
    match row.0 {
        Arrival::Continuous => SpawnTrigger::Continuous { interval_s: thousandths(row.2) },
        Arrival::Wave => SpawnTrigger::Wave { wave_size: row.1, interval_s: thousandths(row.2) },
        Arrival::OnZoneEnter => SpawnTrigger::OnZoneEnter,
        Arrival::OnObjective => SpawnTrigger::OnObjective,
    }
}

/// The definition is what the row says.
pub open spec fn is_spawn(d: SpawnRuleDef, row: SpawnRow) -> bool {
    &&& d.id@ == row.0@
    &&& d.name@ == row.1@
    &&& d.mob@ == row.2@
    &&& d.trigger == arrives(row.3)
    &&& d.max_alive == row.4
    &&& lists(d.biome_filter@, row.5.0, row.5.1@)
    &&& d.level_scaling == thousandths(row.6)
    &&& refers(d.loot_table, row.7@)
}

/// The list is what the table says.
pub open spec fn are_spawns(list: Seq<SpawnRuleDef>, rows: Seq<SpawnRow>) -> bool {
    &&& list.len() == rows.len()
    &&& forall|i: int| 0 <= i < list.len() ==> is_spawn(#[trigger] list[i], rows[i])
}

/// Reads a row.
pub fn spawn(row: SpawnRow) -> (r: SpawnRuleDef)
    ensures
        is_spawn(r, row),
{
    SpawnRuleDef {
        id: SpawnRuleId::new(row.0),
        name: row.1.to_owned(),
        mob: MobId::new(row.2),
        trigger: match row.3.0 {
            Arrival::Continuous => SpawnTrigger::Continuous { interval_s: milli(row.3.2) },
            Arrival::Wave => SpawnTrigger::Wave {
                wave_size: row.3.1,
                interval_s: milli(row.3.2),
            },
            Arrival::OnZoneEnter => SpawnTrigger::OnZoneEnter,
            Arrival::OnObjective => SpawnTrigger::OnObjective,
        },
        max_alive: row.4,
        biome_filter: list(row.5.0, row.5.1.as_slice()),
        level_scaling: milli(row.6),
        loot_table: refer(row.7),
    }
}

/// In the rows of spawn rules, every column goes where it belongs.
pub proof fn spawn_rules_are_read_by_column(row: SpawnRow, r: SpawnRuleDef)
    requires
        call_ensures(spawn, (row,), r),
    ensures
        r.id@ == row.0@,
        r.name@ == row.1@,
        r.mob@ == row.2@,
        r.trigger == arrives(row.3),
        r.max_alive == row.4,
        lists(r.biome_filter@, row.5.0, row.5.1@),
        r.level_scaling == decimal(row.6 as int, 3),
        refers(r.loot_table, row.7@),
{
}

} // verus!
