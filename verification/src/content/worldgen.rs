//! World generation parameters — the seed-driven recipe for the procedural world.
//!
//! Cerena's world is generated, not authored: a deterministic seed plus layered
//! noise yields continents, mountains, caves, and biomes. [`WorldGenParams`] is the
//! full recipe the generator consumes. Because it is data, the world's character
//! (more islands, deeper caves, new biomes) is a hot-reloadable tweak — and the same
//! params on authority and client guarantee identical terrain.

use crate::content::ids::{MaterialId, MobId};
use crate::content::material::{NoiseKind, NoiseLayer};
use crate::scalar::{dec, decimal, Scalar};
use vstd::prelude::*;

verus! {

/// A biome: a height band with its surface look, fog, and creature spawns. The
/// generator assigns a biome per region from the biome-selection noise, then bands by
/// terrain height.
#[derive(Debug, Clone)]
pub struct BiomeDef {
    pub name: String,
    /// Lowest normalised terrain height (0..1) this biome covers.
    pub height_min: Scalar,
    /// Highest normalised terrain height (0..1) this biome covers.
    pub height_max: Scalar,
    /// Material painted on the ground surface.
    pub surface_material: Option<MaterialId>,
    /// Distance-fog tint (linear RGB) that sets the biome's mood.
    pub fog_color: [Scalar; 3],
    /// Creatures that spawn here as `(mob, relative weight)`.
    pub mob_spawns: Vec<(MobId, Scalar)>,
}

/// A scattered structure / point-of-interest (ruins, monoliths, nests). The
/// generator places these by Poisson-ish sampling at `frequency`, seeding each
/// instance's procedural mesh with `mesh_seed`.
#[derive(Debug, Clone)]
pub struct StructureDef {
    pub name: String,
    /// Placement density (instances per unit area, roughly).
    pub frequency: Scalar,
    /// Optional creature bound to the structure (a guardian, a nest spawner).
    pub mob_id: Option<MobId>,
    /// World-space scale of the structure.
    pub scale: Scalar,
    /// Seed for the structure's procedural organic mesh.
    pub mesh_seed: u32,
}

/// The complete world-generation recipe.
#[derive(Debug, Clone)]
pub struct WorldGenParams {
    /// Master seed; everything derives deterministically from this.
    pub seed: u64,
    /// World units per noise unit — bigger = larger continents.
    pub world_scale: Scalar,
    /// Low-frequency layer carving continents from ocean.
    pub continent: NoiseLayer,
    /// Mid/high-frequency ridged layer raising mountain ranges.
    pub mountains: NoiseLayer,
    /// 3D layer carving cave systems; cells above `cave_threshold` become air.
    pub caves: NoiseLayer,
    /// Threshold (0..1) above which the cave field hollows out rock.
    pub cave_threshold: Scalar,
    /// Frequency of the biome-selection field.
    pub biome_freq: Scalar,
    /// Normalised sea level (0..1); terrain below is underwater.
    pub sea_level: Scalar,
    /// Biomes the world can express.
    pub biomes: Vec<BiomeDef>,
    /// Scattered structures / points of interest.
    pub structures: Vec<StructureDef>,
}

fn noise(
    kind: NoiseKind,
    frequency: Scalar,
    amplitude: Scalar,
    octaves: u8,
    lacunarity: Scalar,
    gain: Scalar,
    warp: Scalar,
    seed: u32,
) -> (r: NoiseLayer)
    ensures
        r == (NoiseLayer { kind, frequency, amplitude, octaves, lacunarity, gain, warp, seed }),
{
    NoiseLayer { kind, frequency, amplitude, octaves, lacunarity, gain, warp, seed }
}

impl BiomeDef {
    /// The biome's band, ground and mood; creatures aside.
    pub open spec fn is(
        self,
        name: Seq<char>,
        low: Scalar,
        high: Scalar,
        ground: Seq<char>,
        fog: Seq<Scalar>,
    ) -> bool {
        &&& self.name@ == name
        &&& self.height_min == low
        &&& self.height_max == high
        &&& self.surface_material matches Some(m) && m@ == ground
        &&& self.fog_color@ == fog
    }

    /// The creature at `i` and how often it spawns.
    pub open spec fn spawns(self, i: int, mob: Seq<char>, weight: Scalar) -> bool {
        &&& self.mob_spawns@[i].0@ == mob
        &&& self.mob_spawns@[i].1 == weight
    }
}

fn biome(
    name: &str,
    low: Scalar,
    high: Scalar,
    ground: &str,
    fog: [Scalar; 3],
    mob_spawns: Vec<(MobId, Scalar)>,
) -> (r: BiomeDef)
    ensures
        r.is(name@, low, high, ground@, fog@),
        r.mob_spawns == mob_spawns,
{
    BiomeDef {
        name: name.to_owned(),
        height_min: low,
        height_max: high,
        surface_material: Some(MaterialId::new(ground)),
        fog_color: fog,
        mob_spawns,
    }
}

impl StructureDef {
    /// The structure's placement, guardian, size and look.
    pub open spec fn is(
        self,
        name: Seq<char>,
        frequency: Scalar,
        guardian: Seq<char>,
        scale: Scalar,
        mesh_seed: u32,
    ) -> bool {
        &&& self.name@ == name
        &&& self.frequency == frequency
        &&& self.mob_id matches Some(m) && m@ == guardian
        &&& self.scale == scale
        &&& self.mesh_seed == mesh_seed
    }
}

fn structure(name: &str, frequency: Scalar, guardian: &str, scale: Scalar, mesh_seed: u32) -> (r:
    StructureDef)
    ensures
        r.is(name@, frequency, guardian@, scale, mesh_seed),
{
    StructureDef {
        name: name.to_owned(),
        frequency,
        mob_id: Some(MobId::new(guardian)),
        scale,
        mesh_seed,
    }
}

impl WorldGenParams {
    /// The shape of the organic mystery world: rolling continents, ridged peaks and winding
    /// caves.
    pub open spec fn mystery_terrain(self) -> bool {
        &&& self.seed == 0xCE5E_4A00_1234_5678
        &&& self.world_scale == decimal(2048, 0)
        &&& self.continent == (NoiseLayer {
            kind: NoiseKind::Fbm,
            frequency: decimal(6, 1),
            amplitude: decimal(1, 0),
            octaves: 5,
            lacunarity: decimal(2, 0),
            gain: decimal(5, 1),
            warp: decimal(35, 2),
            seed: 1,
        })
        &&& self.mountains == (NoiseLayer {
            kind: NoiseKind::Ridged,
            frequency: decimal(18, 1),
            amplitude: decimal(7, 1),
            octaves: 6,
            lacunarity: decimal(21, 1),
            gain: decimal(55, 2),
            warp: decimal(2, 1),
            seed: 2,
        })
        &&& self.caves == (NoiseLayer {
            kind: NoiseKind::Worley,
            frequency: decimal(32, 1),
            amplitude: decimal(1, 0),
            octaves: 3,
            lacunarity: decimal(2, 0),
            gain: decimal(5, 1),
            warp: decimal(6, 1),
            seed: 3,
        })
        &&& self.cave_threshold == decimal(62, 2)
        &&& self.biome_freq == decimal(4, 1)
        &&& self.sea_level == decimal(42, 2)
    }

    /// A verdant lowland, a crystal highland and the hollows below the sea, dotted with
    /// ruins.
    pub open spec fn mystery_places(self) -> bool {
        &&& self.biomes@.len() == 3
        &&& self.biomes@[0].is(
            "Verdant Lowlands"@,
            decimal(42, 2),
            decimal(7, 1),
            "material.mystic_grass"@,
            seq![decimal(55, 2), decimal(72, 2), decimal(6, 1)],
        )
        &&& self.biomes@[0].mob_spawns@.len() == 2
        &&& self.biomes@[0].spawns(0, "mob.forest_guardian"@, decimal(1, 0))
        &&& self.biomes@[0].spawns(1, "mob.wisp"@, decimal(2, 0))
        &&& self.biomes@[1].is(
            "Crystal Highlands"@,
            decimal(7, 1),
            decimal(1, 0),
            "material.crystal"@,
            seq![decimal(6, 1), decimal(62, 2), decimal(85, 2)],
        )
        &&& self.biomes@[1].mob_spawns@.len() == 1
        &&& self.biomes@[1].spawns(0, "mob.crystal_golem"@, decimal(1, 0))
        &&& self.biomes@[2].is(
            "Void Hollows"@,
            decimal(0, 0),
            decimal(42, 2),
            "material.void_fog"@,
            seq![decimal(12, 2), decimal(8, 2), decimal(18, 2)],
        )
        &&& self.biomes@[2].mob_spawns@.len() == 1
        &&& self.biomes@[2].spawns(0, "mob.void_wraith"@, decimal(15, 1))
        &&& self.structures@.len() == 2
        &&& self.structures@[0].is(
            "Sunken Monolith"@,
            decimal(15, 3),
            "mob.crystal_golem"@,
            decimal(6, 0),
            0x5701,
        )
        &&& self.structures@[1].is(
            "Whispering Ruins"@,
            decimal(3, 2),
            "mob.void_wraith"@,
            decimal(35, 1),
            0x5702,
        )
    }
}

impl Default for WorldGenParams {
    /// An organic mystery world: rolling continents, ridged peaks, winding caves, a verdant
    /// lowland biome and a high-crystal highland biome, dotted with ruins.
    fn default() -> (r: Self)
        ensures
            r.mystery_terrain(),
            r.mystery_places(),
    {
        let mut lowland_mobs: Vec<(MobId, Scalar)> = Vec::new();
        lowland_mobs.push((MobId::new("mob.forest_guardian"), dec(1, 0)));
        lowland_mobs.push((MobId::new("mob.wisp"), dec(2, 0)));
        let mut highland_mobs: Vec<(MobId, Scalar)> = Vec::new();
        highland_mobs.push((MobId::new("mob.crystal_golem"), dec(1, 0)));
        let mut hollow_mobs: Vec<(MobId, Scalar)> = Vec::new();
        hollow_mobs.push((MobId::new("mob.void_wraith"), dec(15, 1)));
        let mut biomes: Vec<BiomeDef> = Vec::new();
        biomes.push(
            biome(
                "Verdant Lowlands",
                dec(42, 2),
                dec(7, 1),
                "material.mystic_grass",
                [dec(55, 2), dec(72, 2), dec(6, 1)],
                lowland_mobs,
            ),
        );
        biomes.push(
            biome(
                "Crystal Highlands",
                dec(7, 1),
                dec(1, 0),
                "material.crystal",
                [dec(6, 1), dec(62, 2), dec(85, 2)],
                highland_mobs,
            ),
        );
        biomes.push(
            biome(
                "Void Hollows",
                dec(0, 0),
                dec(42, 2),
                "material.void_fog",
                [dec(12, 2), dec(8, 2), dec(18, 2)],
                hollow_mobs,
            ),
        );
        let mut structures: Vec<StructureDef> = Vec::new();
        structures.push(
            structure("Sunken Monolith", dec(15, 3), "mob.crystal_golem", dec(6, 0), 0x5701),
        );
        structures.push(
            structure("Whispering Ruins", dec(3, 2), "mob.void_wraith", dec(35, 1), 0x5702),
        );
        WorldGenParams {
            seed: 0xCE5E_4A00_1234_5678,
            world_scale: dec(2048, 0),
            continent: noise(
                NoiseKind::Fbm,
                dec(6, 1),
                dec(1, 0),
                5,
                dec(2, 0),
                dec(5, 1),
                dec(35, 2),
                1,
            ),
            mountains: noise(
                NoiseKind::Ridged,
                dec(18, 1),
                dec(7, 1),
                6,
                dec(21, 1),
                dec(55, 2),
                dec(2, 1),
                2,
            ),
            caves: noise(
                NoiseKind::Worley,
                dec(32, 1),
                dec(1, 0),
                3,
                dec(2, 0),
                dec(5, 1),
                dec(6, 1),
                3,
            ),
            cave_threshold: dec(62, 2),
            biome_freq: dec(4, 1),
            sea_level: dec(42, 2),
            biomes,
            structures,
        }
    }
}

} // verus!
