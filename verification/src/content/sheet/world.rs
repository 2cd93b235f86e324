//! Biomes and structures as rows.

use crate::content::sheet::{
    all_thousandths, milli, milli3, refer, refers, thousandths, weigh, weighs,
};
use crate::content::worldgen::{BiomeDef, StructureDef};
use crate::scalar::decimal;
use vstd::prelude::*;

verus! {

/// `(name, lowest, highest, ground, fog, creatures with their weights)`.
pub type BiomeRow = (
    &'static str,
    i32,
    i32,
    &'static str,
    [i32; 3],
    (u8, [(&'static str, i32); 3]),
);

/// The definition is what the row says.
pub open spec fn is_biome(d: BiomeDef, row: BiomeRow) -> bool {
    &&& d.name@ == row.0@
    &&& d.height_min == thousandths(row.1)
    &&& d.height_max == thousandths(row.2)
    &&& refers(d.surface_material, row.3@)
    &&& d.fog_color@ == all_thousandths(row.4@)
    &&& weighs(d.mob_spawns@, row.5.0, row.5.1@)
}

/// The list is what the table says.
pub open spec fn are_biomes(list: Seq<BiomeDef>, rows: Seq<BiomeRow>) -> bool {
    &&& list.len() == rows.len()
    &&& forall|i: int| 0 <= i < list.len() ==> is_biome(#[trigger] list[i], rows[i])
}

/// Reads a row.
pub fn biome(row: BiomeRow) -> (r: BiomeDef)
    ensures
        is_biome(r, row),
{
    BiomeDef {
        name: row.0.to_owned(),
        height_min: milli(row.1),
        height_max: milli(row.2),
        surface_material: refer(row.3),
        fog_color: milli3(row.4),
        mob_spawns: weigh(row.5.0, row.5.1.as_slice()),
    }
}

/// `(name, frequency, guardian, scale, mesh seed)`.
pub type StructureRow = (&'static str, i32, &'static str, i32, u32);

/// The definition is what the row says.
pub open spec fn is_structure(d: StructureDef, row: StructureRow) -> bool {
    &&& d.name@ == row.0@
    &&& d.frequency == thousandths(row.1)
    &&& refers(d.mob_id, row.2@)
    &&& d.scale == thousandths(row.3)
    &&& d.mesh_seed == row.4
}

/// The list is what the table says.
pub open spec fn are_structures(list: Seq<StructureDef>, rows: Seq<StructureRow>) -> bool {
    &&& list.len() == rows.len()
    &&& forall|i: int| 0 <= i < list.len() ==> is_structure(#[trigger] list[i], rows[i])
}

/// Reads a row.
pub fn structure(row: StructureRow) -> (r: StructureDef)
    ensures
        is_structure(r, row),
{
    StructureDef {
        name: row.0.to_owned(),
        frequency: milli(row.1),
        mob_id: refer(row.2),
        scale: milli(row.3),
        mesh_seed: row.4,
    }
}

/// In the rows of biomes, every column goes where it belongs.
pub proof fn biomes_are_read_by_column(row: BiomeRow, r: BiomeDef)
    requires
        call_ensures(biome, (row,), r),
    ensures
        r.name@ == row.0@,
        r.height_min == decimal(row.1 as int, 3),
        r.height_max == decimal(row.2 as int, 3),
        refers(r.surface_material, row.3@),
        r.fog_color@ == all_thousandths(row.4@),
        weighs(r.mob_spawns@, row.5.0, row.5.1@),
{
}

/// In the rows of structures, every column goes where it belongs.
pub proof fn structures_are_read_by_column(row: StructureRow, r: StructureDef)
    requires
        call_ensures(structure, (row,), r),
    ensures
        r.name@ == row.0@,
        r.frequency == decimal(row.1 as int, 3),
        refers(r.mob_id, row.2@),
        r.scale == decimal(row.3 as int, 3),
        r.mesh_seed == row.4,
{
}

} // verus!
