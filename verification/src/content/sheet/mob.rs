//! Mobs as rows.

use crate::content::ids::MobId;
use crate::content::mob::MobDef;
use crate::content::sheet::{list, lists, milli, refer, refers, thousandths, weigh, weighs};
use crate::scalar::decimal;
use vstd::prelude::*;

verus! {

/// `(id, name, health, speed, abilities, experience, drops with their chances, material,
/// scale, whether it attacks on sight, mesh seed)`.
pub type MobRow = (
    &'static str,
    &'static str,
    i32,
    i32,
    (u8, [&'static str; 3]),
    u32,
    (u8, [(&'static str, i32); 3]),
    &'static str,
    i32,
    bool,
    u32,
);

/// The definition is what the row says.
pub open spec fn is_mob(d: MobDef, row: MobRow) -> bool {
    &&& d.id@ == row.0@
    &&& d.name@ == row.1@
    &&& d.max_health == thousandths(row.2)
    &&& d.move_speed == thousandths(row.3)
    &&& lists(d.abilities@, row.4.0, row.4.1@)
    &&& d.xp_reward == row.5
    &&& weighs(d.loot_table@, row.6.0, row.6.1@)
    &&& refers(d.material, row.7@)
    &&& d.scale == thousandths(row.8)
    &&& d.aggressive == row.9
    &&& d.mesh_seed == row.10
}

/// The list is what the table says.
pub open spec fn are_mobs(list: Seq<MobDef>, rows: Seq<MobRow>) -> bool {
    &&& list.len() == rows.len()
    &&& forall|i: int| 0 <= i < list.len() ==> is_mob(#[trigger] list[i], rows[i])
}

/// Reads a row.
pub fn mob(row: MobRow) -> (r: MobDef)
    ensures
        is_mob(r, row),
{
    MobDef {
        id: MobId::new(row.0),
        name: row.1.to_owned(),
        max_health: milli(row.2),
        move_speed: milli(row.3),
        abilities: list(row.4.0, row.4.1.as_slice()),
        xp_reward: row.5,
        loot_table: weigh(row.6.0, row.6.1.as_slice()),
        material: refer(row.7),
        scale: milli(row.8),
        aggressive: row.9,
        mesh_seed: row.10,
    }
}

/// In the rows of mobs, every column goes where it belongs.
pub proof fn mobs_are_read_by_column(row: MobRow, r: MobDef)
    requires
        call_ensures(mob, (row,), r),
    ensures
        r.id@ == row.0@,
        r.name@ == row.1@,
        r.max_health == decimal(row.2 as int, 3),
        r.move_speed == decimal(row.3 as int, 3),
        lists(r.abilities@, row.4.0, row.4.1@),
        r.xp_reward == row.5,
        weighs(r.loot_table@, row.6.0, row.6.1@),
        refers(r.material, row.7@),
        r.scale == decimal(row.8 as int, 3),
        r.aggressive == row.9,
        r.mesh_seed == row.10,
{
}

} // verus!
