//! Materials and shaders as rows.

use crate::content::ids::{MaterialId, ShaderId};
use crate::content::material::{
    ColorRamp, MaterialDef, NoiseKind, NoiseLayer, ShaderDef, ShaderStage,
};
use crate::content::sheet::{
    all_thousandths, milli, milli3, milli4, read_all, read_some, refer, refers, thousandths, used,
    weigh, weighs,
};
use crate::scalar::{decimal, Scalar};
use vstd::prelude::*;

verus! {

/// `(kind, frequency, amplitude, octaves, lacunarity, gain, warp, seed)`.
pub type LayerRow = (NoiseKind, i32, i32, u8, i32, i32, i32, u32);

/// An unused place.
pub const NO_LAYER: LayerRow = (NoiseKind::Fbm, 0, 0, 0, 0, 0, 0, 0);

/// A colour stop: where it is, and its linear RGBA.
pub type StopRow = (i32, [i32; 4]);

/// `(id, name, layers, colour stops, (roughness, metallic, emissive strength), emissive
/// colour, triplanar scale, displacement, shader)`.
pub type MaterialRow = (
    &'static str,
    &'static str,
    (u8, [LayerRow; 2]),
    [StopRow; 3],
    (i32, i32, i32),
    [i32; 3],
    i32,
    i32,
    &'static str,
);

/// The layer that the row says.
pub open spec fn layered(row: LayerRow) -> NoiseLayer {
    NoiseLayer {
        kind: row.0,
        frequency: thousandths(row.1),
        amplitude: thousandths(row.2),
        octaves: row.3,
        lacunarity: thousandths(row.4),
        gain: thousandths(row.5),
        warp: thousandths(row.6),
        seed: row.7,
    }
}

fn layer(row: LayerRow) -> (r: NoiseLayer)
    ensures
        r == layered(row),
{
    NoiseLayer {
        kind: row.0,
        frequency: milli(row.1),
        amplitude: milli(row.2),
        octaves: row.3,
        lacunarity: milli(row.4),
        gain: milli(row.5),
        warp: milli(row.6),
        seed: row.7,
    }
}

/// The layers are the first `n` rows.
pub open spec fn all_layered(list: Seq<NoiseLayer>, n: u8, rows: Seq<LayerRow>) -> bool {
    &&& list.len() == used(n, rows.len())
    &&& forall|i: int| 0 <= i < list.len() ==> #[trigger] list[i] == layered(rows[i])
}

/// The stop is the one that the row says.
pub open spec fn stops_at(stop: (Scalar, [Scalar; 4]), row: StopRow) -> bool {
    stop.0 == thousandths(row.0) && stop.1@ == all_thousandths(row.1@)
}

fn stop(row: StopRow) -> (r: (Scalar, [Scalar; 4]))
    ensures
        stops_at(r, row),
{
    (milli(row.0), milli4(row.1))
}

/// The stops are the rows.
pub open spec fn ramps(list: Seq<(Scalar, [Scalar; 4])>, rows: Seq<StopRow>) -> bool {
    &&& list.len() == rows.len()
    &&& forall|i: int| 0 <= i < list.len() ==> stops_at(#[trigger] list[i], rows[i])
}

/// The definition is what the row says.
pub open spec fn is_material(d: MaterialDef, row: MaterialRow) -> bool {
    &&& d.id@ == row.0@
    &&& d.name@ == row.1@
    &&& all_layered(d.layers@, row.2.0, row.2.1@)
    &&& ramps(d.ramp.stops@, row.3@)
    &&& d.roughness == thousandths(row.4.0)
    &&& d.metallic == thousandths(row.4.1)
    &&& d.emissive == thousandths(row.4.2)
    &&& d.emissive_color@ == all_thousandths(row.5@)
    &&& d.triplanar_scale == thousandths(row.6)
    &&& d.displacement == thousandths(row.7)
    &&& refers(d.shader, row.8@)
}

/// The list is what the table says.
pub open spec fn are_materials(list: Seq<MaterialDef>, rows: Seq<MaterialRow>) -> bool {
    &&& list.len() == rows.len()
    &&& forall|i: int| 0 <= i < list.len() ==> is_material(#[trigger] list[i], rows[i])
}

/// Reads a row.
pub fn material(row: MaterialRow) -> (r: MaterialDef)
    ensures
        is_material(r, row),
{
    MaterialDef {
        id: MaterialId::new(row.0),
        name: row.1.to_owned(),
        layers: read_some(row.2.0, row.2.1.as_slice(), layer),
        ramp: ColorRamp { stops: read_all(row.3.as_slice(), stop) },
        roughness: milli(row.4.0),
        metallic: milli(row.4.1),
        emissive: milli(row.4.2),
        emissive_color: milli3(row.5),
        triplanar_scale: milli(row.6),
        displacement: milli(row.7),
        shader: refer(row.8),
    }
}

/// `(id, name, stage, parameters with their defaults, source)`.
pub type ShaderRow = (
    &'static str,
    &'static str,
    ShaderStage,
    (u8, [(&'static str, i32); 2]),
    &'static str,
);

/// The definition is what the row says.
pub open spec fn is_shader(d: ShaderDef, row: ShaderRow) -> bool {
    &&& d.id@ == row.0@
    &&& d.name@ == row.1@
    &&& d.stage == row.2
    &&& weighs(d.params@, row.3.0, row.3.1@)
    &&& d.source@ == row.4@
}

/// The list is what the table says.
pub open spec fn are_shaders(list: Seq<ShaderDef>, rows: Seq<ShaderRow>) -> bool {
    &&& list.len() == rows.len()
    &&& forall|i: int| 0 <= i < list.len() ==> is_shader(#[trigger] list[i], rows[i])
}

/// Reads a row.
pub fn shader(row: ShaderRow) -> (r: ShaderDef)
    ensures
        is_shader(r, row),
{
    ShaderDef {
        id: ShaderId::new(row.0),
        name: row.1.to_owned(),
        stage: row.2,
        params: weigh(row.3.0, row.3.1.as_slice()),
        source: row.4.to_owned(),
    }
}

/// In the rows of materials, every column goes where it belongs.
pub proof fn materials_are_read_by_column(row: MaterialRow, r: MaterialDef)
    requires
        call_ensures(material, (row,), r),
    ensures
        r.id@ == row.0@,
        r.name@ == row.1@,
        all_layered(r.layers@, row.2.0, row.2.1@),
        ramps(r.ramp.stops@, row.3@),
        r.roughness == decimal(row.4.0 as int, 3),
        r.metallic == decimal(row.4.1 as int, 3),
        r.emissive == decimal(row.4.2 as int, 3),
        r.emissive_color@ == all_thousandths(row.5@),
        r.triplanar_scale == decimal(row.6 as int, 3),
        r.displacement == decimal(row.7 as int, 3),
        refers(r.shader, row.8@),
{
}

/// In the rows of shaders, every column goes where it belongs.
pub proof fn shaders_are_read_by_column(row: ShaderRow, r: ShaderDef)
    requires
        call_ensures(shader, (row,), r),
    ensures
        r.id@ == row.0@,
        r.name@ == row.1@,
        r.stage == row.2,
        weighs(r.params@, row.3.0, row.3.1@),
        r.source@ == row.4@,
{
}

/// A material's layers and colour stops are those of its row, in order, each with its own numbers.
pub proof fn layers_are_read_by_column(row: MaterialRow, r: MaterialDef, i: int, k: int)
    requires
        call_ensures(material, (row,), r),
        0 <= k < 4,
    ensures
        r.layers@.len() == if row.2.0 < 2 {
            row.2.0 as nat
        } else {
            2
        },
        0 <= i < r.layers@.len() ==> {
            let (made, said) = (r.layers@[i], row.2.1@[i]);
            &&& made.kind == said.0
            &&& made.frequency == decimal(said.1 as int, 3)
            &&& made.amplitude == decimal(said.2 as int, 3)
            &&& made.octaves == said.3
            &&& made.lacunarity == decimal(said.4 as int, 3)
            &&& made.gain == decimal(said.5 as int, 3)
            &&& made.warp == decimal(said.6 as int, 3)
            &&& made.seed == said.7
        },
        r.ramp.stops@.len() == 3,
        0 <= i < 3 ==> r.ramp.stops@[i].0 == decimal(row.3@[i].0 as int, 3),
        0 <= i < 3 ==> r.ramp.stops@[i].1@[k] == decimal(row.3@[i].1@[k] as int, 3),
{
    if 0 <= i < r.layers@.len() {
        assert(r.layers@[i] == layered(row.2.1@[i]));
    }
    if 0 <= i < 3 {
        assert(stops_at(r.ramp.stops@[i], row.3@[i]));
    }
}

} // verus!
