//! An [`AssetBundle`]: every renderable asset for one content pack, baked once and indexed
//! by handle. This is the artifact that *makes rendering trivial* — the client bakes a
//! bundle when a pack arrives, uploads each asset to the GPU once, and from then on draws
//! any entity by looking up its [`MobVisual`] / [`ItemVisual`] and binding the cached
//! resources behind those handles.

use crate::assets::bake::{
    bake_item_mesh, bake_shader, is_baked_shader, is_emblem, BakeQuality,
};
use crate::assets::handle::{MaterialHandle, MeshHandle, RigHandle, ShaderHandle, TextureHandle};
use crate::assets::render_asset::{
    MaterialAsset, Mesh, RigAsset, ShaderAsset, SkinnedMesh, TextureAsset, TextureData,
};
use crate::content::digest::pack_hash;
use crate::content::ids::MaterialId;
use crate::content::keyed::{defines, index, indexes, keys, last_of_key, Keyed};
use crate::content::material::{MaterialDef, ShaderDef};
use crate::content::mob::MobDef;
use crate::content::pack::ContentPack;
use crate::table::NameMap;
use crate::text::{fnv_hash, seed32, seed_from};
use vstd::prelude::*;
use vstd::utf8::encode_utf8;

verus! {

/// Everything needed to draw one creature: its skinned mesh, its surface material (if any),
/// and the rig to animate it.
#[derive(Debug, Clone, Copy, PartialEq, Eq, Structural)]
pub struct MobVisual {
    pub mesh: MeshHandle,
    pub material: Option<MaterialHandle>,
    pub rig: RigHandle,
}

/// Everything needed to draw one item in the world or an inventory slot.
#[derive(Debug, Clone, Copy, PartialEq, Eq, Structural)]
pub struct ItemVisual {
    pub mesh: MeshHandle,
    pub material: Option<MaterialHandle>,
}

/// A fully-baked asset set for one pack. Arrays are indexed by handles; the maps resolve
/// content ids to places in them.
#[derive(Debug, Clone)]
pub struct AssetBundle {
    /// The pack label this was baked from (for debugging / the asset HUD).
    pub label: String,
    /// The pack's content hash — the bundle's identity, and the hot-reload key.
    pub pack_hash: String,
    pub meshes: Vec<SkinnedMesh>,
    pub textures: Vec<TextureAsset>,
    pub materials: Vec<MaterialAsset>,
    pub shaders: Vec<ShaderAsset>,
    pub rigs: Vec<RigAsset>,
    /// The draw sets, in the order of the pack's mobs and items.
    pub mob_visuals: Vec<MobVisual>,
    pub item_visuals: Vec<ItemVisual>,
    pub material_by_id: NameMap<usize>,
    pub shader_by_id: NameMap<usize>,
    pub mob_by_id: NameMap<usize>,
    pub item_by_id: NameMap<usize>,
}

/// The place of the last definition with this key.
pub open spec fn place_of<T: Keyed>(defs: Seq<T>, key: Seq<char>) -> Option<int> {
    if defines(defs, key) {
        Some(choose|i: int| #[trigger] last_of_key(defs, i) && defs[i].key() == key)
    } else {
        None
    }
}

proof fn place_is<T: Keyed>(defs: Seq<T>, i: int)
    requires
        last_of_key(defs, i),
    ensures
        place_of(defs, defs[i].key()) == Some(i),
{
    let key = defs[i].key();
    assert(defines(defs, key));
    let j = choose|j: int| #[trigger] last_of_key(defs, j) && defs[j].key() == key;
    assert(last_of_key(defs, j) && defs[j].key() == key);
    if i < j {
        assert(defs[j].key() != defs[i].key());
    }
    if j < i {
        assert(defs[i].key() != defs[j].key());
    }
}

/// The material that a definition names, by its place among the pack's; nothing if it names
/// none or one that the pack does not have.
pub open spec fn named_material(name: Option<MaterialId>, materials: Seq<MaterialDef>) -> Option<
    MaterialHandle,
> {
    match name {
        None => None,
        Some(id) => match place_of(materials, id@) {
            Some(i) => Some(MaterialHandle(i as u32)),
            None => None,
        },
    }
}

/// The shader that a material names, by its place among the pack's.
pub open spec fn named_shader(mat: MaterialDef, shaders: Seq<ShaderDef>) -> Option<ShaderHandle> {
    match mat.shader {
        None => None,
        Some(id) => match place_of(shaders, id@) {
            Some(i) => Some(ShaderHandle(i as u32)),
            None => None,
        },
    }
}

/// The texture is the generated one, taken as colour or as data.
pub open spec fn is_texture<F: Fn(&MaterialDef, u32, u32) -> TextureData>(
    mat: MaterialDef,
    size: u32,
    synth: F,
    srgb: bool,
    r: TextureAsset,
) -> bool {
    exists|t: TextureData|
        {
            &&& #[trigger] call_ensures(synth, (&mat, size, seed_from(encode_utf8(mat.id@))), t)
            &&& r == (TextureAsset { width: t.width, height: t.height, rgba: t.rgba, srgb })
        }
}

/// The material asset at place `i`: its textures are the two at `2 * i`.
pub open spec fn is_material(mat: MaterialDef, i: int, shaders: Seq<ShaderDef>, r: MaterialAsset) -> bool {
    &&& r.albedo.0 == 2 * i
    &&& r.normal.0 == 2 * i + 1
    &&& r.roughness == mat.roughness
    &&& r.metallic == mat.metallic
    &&& r.emissive == mat.emissive
    &&& r.emissive_color == mat.emissive_color
    &&& r.triplanar_scale == mat.triplanar_scale
    &&& r.displacement == mat.displacement
    &&& r.shader == named_shader(mat, shaders)
}

impl AssetBundle {
    /// One shader asset per shader, in order.
    pub open spec fn has_shaders(self, pack: ContentPack) -> bool {
        &&& self.shaders@.len() == pack.shaders@.len()
        &&& forall|i: int|
            0 <= i < pack.shaders@.len() ==> is_baked_shader(
                pack.shaders@[i],
                #[trigger] self.shaders@[i],
            )
        &&& self.shader_by_id.well_formed() && indexes(self.shader_by_id@, pack.shaders@)
    }

    /// One material asset per material, in order, each with an albedo and a normal texture.
    pub open spec fn has_materials<
        A: Fn(&MaterialDef, u32, u32) -> TextureData,
        N: Fn(&MaterialDef, u32, u32) -> TextureData,
    >(self, pack: ContentPack, quality: BakeQuality, albedo: A, normal: N) -> bool {
        &&& self.materials@.len() == pack.materials@.len()
        &&& self.textures@.len() == 2 * pack.materials@.len()
        &&& forall|i: int|
            0 <= i < pack.materials@.len() ==> {
                &&& is_material(pack.materials@[i], i, pack.shaders@, #[trigger] self.materials@[i])
                &&& is_texture(
                    pack.materials@[i],
                    quality.texture_size,
                    albedo,
                    true,
                    self.textures@[2 * i],
                )
                &&& is_texture(
                    pack.materials@[i],
                    quality.texture_size,
                    normal,
                    false,
                    self.textures@[2 * i + 1],
                )
            }
        &&& self.material_by_id.well_formed() && indexes(self.material_by_id@, pack.materials@)
    }

    /// One mesh, rig and draw set per mob, in order.
    pub open spec fn has_mobs<C: Fn(&MobDef, BakeQuality) -> (SkinnedMesh, RigAsset)>(
        self,
        pack: ContentPack,
        quality: BakeQuality,
        creature: C,
    ) -> bool {
        &&& self.meshes@.len() >= pack.mobs@.len()
        &&& self.rigs@.len() == pack.mobs@.len()
        &&& self.mob_visuals@.len() == pack.mobs@.len()
        &&& forall|i: int|
            0 <= i < pack.mobs@.len() ==> {
                &&& call_ensures(
                    creature,
                    (&pack.mobs@[i], quality),
                    (self.meshes@[i], self.rigs@[i]),
                )
                &&& #[trigger] self.mob_visuals@[i] == (MobVisual {
                    mesh: MeshHandle(i as u32),
                    material: named_material(pack.mobs@[i].material, pack.materials@),
                    rig: RigHandle(i as u32),
                })
            }
        &&& self.mob_by_id.well_formed() && indexes(self.mob_by_id@, pack.mobs@)
    }

    /// One emblem mesh and draw set per item, in order, behind the mobs' meshes.
    pub open spec fn has_items<G: Fn(u64, usize) -> Mesh>(
        self,
        pack: ContentPack,
        quality: BakeQuality,
        emblem: G,
    ) -> bool {
        let first = pack.mobs@.len();
        &&& self.meshes@.len() == first + pack.items@.len()
        &&& self.item_visuals@.len() == pack.items@.len()
        &&& forall|i: int|
            0 <= i < pack.items@.len() ==> {
                &&& is_emblem(pack.items@[i], quality, emblem, self.meshes@[first + i])
                &&& #[trigger] self.item_visuals@[i] == (ItemVisual {
                    mesh: MeshHandle((first + i) as u32),
                    material: named_material(pack.items@[i].material, pack.materials@),
                })
            }
        &&& self.item_by_id.well_formed() && indexes(self.item_by_id@, pack.items@)
    }

    /// Every handle that a draw set or a material holds leads to an asset, and every id
    /// that is known leads to a draw set.
    pub open spec fn well_formed(self) -> bool {
        &&& forall|i: int|
            0 <= i < self.materials@.len() ==> {
                let m = #[trigger] self.materials@[i];
                &&& m.albedo.0 < self.textures@.len()
                &&& m.normal.0 < self.textures@.len()
                &&& m.shader matches Some(s) ==> s.0 < self.shaders@.len()
            }
        &&& forall|i: int|
            0 <= i < self.mob_visuals@.len() ==> {
                let v = #[trigger] self.mob_visuals@[i];
                &&& v.mesh.0 < self.meshes@.len()
                &&& v.rig.0 < self.rigs@.len()
                &&& v.material matches Some(m) ==> m.0 < self.materials@.len()
            }
        &&& forall|i: int|
            0 <= i < self.item_visuals@.len() ==> {
                let v = #[trigger] self.item_visuals@[i];
                &&& v.mesh.0 < self.meshes@.len()
                &&& v.material matches Some(m) ==> m.0 < self.materials@.len()
            }
        &&& self.material_by_id.well_formed()
        &&& self.shader_by_id.well_formed()
        &&& self.mob_by_id.well_formed()
        &&& self.item_by_id.well_formed()
        &&& forall|k: Seq<char>| #[trigger]
            self.material_by_id@.contains_key(k) ==> self.material_by_id@[k] < self.materials@.len()
                && self.material_by_id@[k] <= u32::MAX
        &&& forall|k: Seq<char>| #[trigger]
            self.shader_by_id@.contains_key(k) ==> self.shader_by_id@[k] < self.shaders@.len()
                && self.shader_by_id@[k] <= u32::MAX
        &&& forall|k: Seq<char>| #[trigger]
            self.mob_by_id@.contains_key(k) ==> self.mob_by_id@[k] < self.mob_visuals@.len()
        &&& forall|k: Seq<char>| #[trigger]
            self.item_by_id@.contains_key(k) ==> self.item_by_id@[k] < self.item_visuals@.len()
    }
}

fn find_material(name: &Option<MaterialId>, at: &NameMap<usize>, pack: &ContentPack) -> (r: Option<
    MaterialHandle,
>)
    requires
        at.well_formed(),
        indexes(at@, pack.materials@),
        2 * pack.materials@.len() <= u32::MAX,
    ensures
        r == named_material(*name, pack.materials@),
{
    match name {
        None => None,
        Some(id) => match at.get(id.as_str()) {
            Some(i) => {
                proof {
                    place_is(pack.materials@, *i as int);
                }
                Some(MaterialHandle(*i as u32))
            },
            None => {
                assert(!keys(pack.materials@).contains(id@));
                None
            },
        },
    }
}

fn find_shader(mat: &MaterialDef, at: &NameMap<usize>, pack: &ContentPack) -> (r: Option<ShaderHandle>)
    requires
        at.well_formed(),
        indexes(at@, pack.shaders@),
        pack.shaders@.len() <= u32::MAX,
    ensures
        r == named_shader(*mat, pack.shaders@),
{
    match &mat.shader {
        None => None,
        Some(id) => match at.get(id.as_str()) {
            Some(i) => {
                proof {
                    place_is(pack.shaders@, *i as int);
                }
                Some(ShaderHandle(*i as u32))
            },
            None => {
                assert(!keys(pack.shaders@).contains(id@));
                None
            },
        },
    }
}

fn bake_texture<F: Fn(&MaterialDef, u32, u32) -> TextureData>(
    mat: &MaterialDef,
    size: u32,
    synth: &F,
    srgb: bool,
) -> (r: TextureAsset)
    requires
        forall|m: &MaterialDef, size: u32, seed: u32| call_requires(*synth, (m, size, seed)),
    ensures
        is_texture(*mat, size, *synth, srgb, r),
{
    let t = synth(mat, size, seed32(mat.id.as_str()));
    assert(call_ensures(*synth, (mat, size, seed_from(encode_utf8(mat.id@))), t));
    TextureAsset::from_texture(t, srgb)
}

impl AssetBundle {
    /// Bake every asset a pack needs. Order matters: shaders, then materials (which
    /// reference shader handles), then mobs and items (which reference material handles), so
    /// every handle a later asset stores already exists. `encoded` is the pack's own
    /// encoding, which its hash is taken from; the generators grow the textures, creatures
    /// and emblems.
    pub fn bake<
        A: Fn(&MaterialDef, u32, u32) -> TextureData,
        N: Fn(&MaterialDef, u32, u32) -> TextureData,
        C: Fn(&MobDef, BakeQuality) -> (SkinnedMesh, RigAsset),
        G: Fn(u64, usize) -> Mesh,
    >(
        pack: &ContentPack,
        encoded: &[u8],
        quality: BakeQuality,
        albedo: &A,
        normal: &N,
        creature: &C,
        emblem: &G,
    ) -> (r: AssetBundle)
        requires
            pack.shaders@.len() <= u32::MAX,
            2 * pack.materials@.len() <= u32::MAX,
            pack.mobs@.len() + pack.items@.len() <= u32::MAX,
            forall|m: &MaterialDef, size: u32, seed: u32| call_requires(*albedo, (m, size, seed)),
            forall|m: &MaterialDef, size: u32, seed: u32| call_requires(*normal, (m, size, seed)),
            forall|m: &MobDef, q: BakeQuality| call_requires(*creature, (m, q)),
            forall|seed: u64, res: usize| call_requires(*emblem, (seed, res)),
        ensures
            r.label@ == pack.label@,
            r.pack_hash@ == pack_hash(encoded@),
            r.has_shaders(*pack),
            r.has_materials(*pack, quality, *albedo, *normal),
            r.has_mobs(*pack, quality, *creature),
            r.has_items(*pack, quality, *emblem),
            r.well_formed(),
    {
        let mut b = AssetBundle {
            label: pack.label.clone(),
            pack_hash: ContentPack::hash(encoded),
            meshes: Vec::new(),
            textures: Vec::new(),
            materials: Vec::new(),
            shaders: Vec::new(),
            rigs: Vec::new(),
            mob_visuals: Vec::new(),
            item_visuals: Vec::new(),
            material_by_id: index(&pack.materials),
            shader_by_id: index(&pack.shaders),
            mob_by_id: index(&pack.mobs),
            item_by_id: index(&pack.items),
        };
        b.bake_shaders(pack);
        b.bake_materials(pack, quality, albedo, normal);
        b.bake_mobs(pack, quality, creature);
        b.bake_items(pack, quality, emblem);
        proof {
            b.baked_is_well_formed(*pack, quality, *albedo, *normal, *creature, *emblem);
        }
        b
    }

    fn bake_shaders(&mut self, pack: &ContentPack)
        requires
            old(self).shaders@.len() == 0,
            old(self).shader_by_id.well_formed(),
            indexes(old(self).shader_by_id@, pack.shaders@),
        ensures
            *final(self) == (AssetBundle { shaders: final(self).shaders, ..*old(self) }),
            final(self).has_shaders(*pack),
    {
        let ghost was = *self;
        let mut i: usize = 0;
        while i < pack.shaders.len()
            invariant
                i <= pack.shaders.len(),
                *self == (AssetBundle { shaders: self.shaders, ..was }),
                self.shaders@.len() == i,
                forall|k: int|
                    0 <= k < i ==> is_baked_shader(pack.shaders@[k], #[trigger] self.shaders@[k]),
            decreases pack.shaders.len() - i,
        {
            self.shaders.push(bake_shader(&pack.shaders[i]));
            i = i + 1;
        }
    }

    fn bake_materials<
        A: Fn(&MaterialDef, u32, u32) -> TextureData,
        N: Fn(&MaterialDef, u32, u32) -> TextureData,
    >(&mut self, pack: &ContentPack, quality: BakeQuality, albedo: &A, normal: &N)
        requires
            old(self).materials@.len() == 0,
            old(self).textures@.len() == 0,
            old(self).material_by_id.well_formed(),
            indexes(old(self).material_by_id@, pack.materials@),
            old(self).shader_by_id.well_formed(),
            indexes(old(self).shader_by_id@, pack.shaders@),
            pack.shaders@.len() <= u32::MAX,
            2 * pack.materials@.len() <= u32::MAX,
            forall|m: &MaterialDef, size: u32, seed: u32| call_requires(*albedo, (m, size, seed)),
            forall|m: &MaterialDef, size: u32, seed: u32| call_requires(*normal, (m, size, seed)),
        ensures
            *final(self) == (AssetBundle {
                materials: final(self).materials,
                textures: final(self).textures,
                ..*old(self)
            }),
            final(self).has_materials(*pack, quality, *albedo, *normal),
    {
        let ghost was = *self;
        let mut i: usize = 0;
        while i < pack.materials.len()
            invariant
                i <= pack.materials.len(),
                *self == (AssetBundle { materials: self.materials, textures: self.textures, ..was }),
                self.materials@.len() == i,
                self.textures@.len() == 2 * i,
                was.shader_by_id.well_formed(),
                indexes(was.shader_by_id@, pack.shaders@),
                pack.shaders@.len() <= u32::MAX,
                2 * pack.materials@.len() <= u32::MAX,
                forall|m: &MaterialDef, size: u32, seed: u32|
                    call_requires(*albedo, (m, size, seed)),
                forall|m: &MaterialDef, size: u32, seed: u32|
                    call_requires(*normal, (m, size, seed)),
                forall|k: int|
                    0 <= k < i ==> {
                        &&& is_material(
                            pack.materials@[k],
                            k,
                            pack.shaders@,
                            #[trigger] self.materials@[k],
                        )
                        &&& is_texture(
                            pack.materials@[k],
                            quality.texture_size,
                            *albedo,
                            true,
                            self.textures@[2 * k],
                        )
                        &&& is_texture(
                            pack.materials@[k],
                            quality.texture_size,
                            *normal,
                            false,
                            self.textures@[2 * k + 1],
                        )
                    },
            decreases pack.materials.len() - i,
        {
            let mat = &pack.materials[i];
            let ghost before = *self;
            let albedo_h = TextureHandle(self.textures.len() as u32);
            self.textures.push(bake_texture(mat, quality.texture_size, albedo, true));
            let normal_h = TextureHandle(self.textures.len() as u32);
            self.textures.push(bake_texture(mat, quality.texture_size, normal, false));
            let shader = find_shader(mat, &self.shader_by_id, pack);
            self.materials.push(
                MaterialAsset {
                    albedo: albedo_h,
                    normal: normal_h,
                    roughness: mat.roughness,
                    metallic: mat.metallic,
                    emissive: mat.emissive,
                    emissive_color: mat.emissive_color,
                    triplanar_scale: mat.triplanar_scale,
                    displacement: mat.displacement,
                    shader,
                },
            );
            proof {
                assert forall|k: int| 0 <= k < i implies #[trigger] self.materials@[k]
                    == before.materials@[k] && self.textures@[2 * k] == before.textures@[2 * k]
                    && self.textures@[2 * k + 1] == before.textures@[2 * k + 1] by {}
            }
            i = i + 1;
        }
    }

    fn bake_mobs<C: Fn(&MobDef, BakeQuality) -> (SkinnedMesh, RigAsset)>(
        &mut self,
        pack: &ContentPack,
        quality: BakeQuality,
        creature: &C,
    )
        requires
            old(self).meshes@.len() == 0,
            old(self).rigs@.len() == 0,
            old(self).mob_visuals@.len() == 0,
            old(self).mob_by_id.well_formed(),
            indexes(old(self).mob_by_id@, pack.mobs@),
            old(self).material_by_id.well_formed(),
            indexes(old(self).material_by_id@, pack.materials@),
            2 * pack.materials@.len() <= u32::MAX,
            pack.mobs@.len() <= u32::MAX,
            forall|m: &MobDef, q: BakeQuality| call_requires(*creature, (m, q)),
        ensures
            *final(self) == (AssetBundle {
                meshes: final(self).meshes,
                rigs: final(self).rigs,
                mob_visuals: final(self).mob_visuals,
                ..*old(self)
            }),
            final(self).meshes@.len() == pack.mobs@.len(),
            final(self).has_mobs(*pack, quality, *creature),
    {
        let ghost was = *self;
        let mut i: usize = 0;
        while i < pack.mobs.len()
            invariant
                i <= pack.mobs.len(),
                *self == (AssetBundle {
                    meshes: self.meshes,
                    rigs: self.rigs,
                    mob_visuals: self.mob_visuals,
                    ..was
                }),
                self.meshes@.len() == i,
                self.rigs@.len() == i,
                self.mob_visuals@.len() == i,
                was.material_by_id.well_formed(),
                indexes(was.material_by_id@, pack.materials@),
                2 * pack.materials@.len() <= u32::MAX,
                pack.mobs@.len() <= u32::MAX,
                forall|m: &MobDef, q: BakeQuality| call_requires(*creature, (m, q)),
                forall|k: int|
                    0 <= k < i ==> {
                        &&& call_ensures(
                            *creature,
                            (&pack.mobs@[k], quality),
                            (self.meshes@[k], self.rigs@[k]),
                        )
                        &&& #[trigger] self.mob_visuals@[k] == (MobVisual {
                            mesh: MeshHandle(k as u32),
                            material: named_material(pack.mobs@[k].material, pack.materials@),
                            rig: RigHandle(k as u32),
                        })
                    },
            decreases pack.mobs.len() - i,
        {
            let mob = &pack.mobs[i];
            let (mesh, rig) = creature(mob, quality);
            let mesh_h = MeshHandle(self.meshes.len() as u32);
            self.meshes.push(mesh);
            let rig_h = RigHandle(self.rigs.len() as u32);
            self.rigs.push(rig);
            let material = find_material(&mob.material, &self.material_by_id, pack);
            self.mob_visuals.push(MobVisual { mesh: mesh_h, material, rig: rig_h });
            i = i + 1;
        }
    }

    fn bake_items<G: Fn(u64, usize) -> Mesh>(
        &mut self,
        pack: &ContentPack,
        quality: BakeQuality,
        emblem: &G,
    )
        requires
            old(self).meshes@.len() == pack.mobs@.len(),
            old(self).item_visuals@.len() == 0,
            old(self).item_by_id.well_formed(),
            indexes(old(self).item_by_id@, pack.items@),
            old(self).material_by_id.well_formed(),
            indexes(old(self).material_by_id@, pack.materials@),
            2 * pack.materials@.len() <= u32::MAX,
            pack.mobs@.len() + pack.items@.len() <= u32::MAX,
            forall|seed: u64, res: usize| call_requires(*emblem, (seed, res)),
        ensures
            *final(self) == (AssetBundle {
                meshes: final(self).meshes,
                item_visuals: final(self).item_visuals,
                ..*old(self)
            }),
            final(self).meshes@.take(old(self).meshes@.len() as int) == old(self).meshes@,
            final(self).has_items(*pack, quality, *emblem),
    {
        let ghost was = *self;
        let ghost first = pack.mobs@.len();
        let mut i: usize = 0;
        while i < pack.items.len()
            invariant
                i <= pack.items.len(),
                *self == (AssetBundle { meshes: self.meshes, item_visuals: self.item_visuals, ..was }),
                first == pack.mobs@.len(),
                was.meshes@.len() == first,
                self.meshes@.len() == first + i,
                self.meshes@.take(first as int) == was.meshes@,
                self.item_visuals@.len() == i,
                was.material_by_id.well_formed(),
                indexes(was.material_by_id@, pack.materials@),
                2 * pack.materials@.len() <= u32::MAX,
                pack.mobs@.len() + pack.items@.len() <= u32::MAX,
                forall|seed: u64, res: usize| call_requires(*emblem, (seed, res)),
                forall|k: int|
                    0 <= k < i ==> {
                        &&& is_emblem(pack.items@[k], quality, *emblem, self.meshes@[first + k])
                        &&& #[trigger] self.item_visuals@[k] == (ItemVisual {
                            mesh: MeshHandle((first + k) as u32),
                            material: named_material(pack.items@[k].material, pack.materials@),
                        })
                    },
            decreases pack.items.len() - i,
        {
            let item = &pack.items[i];
            let ghost before = *self;
            let mesh = bake_item_mesh(item, quality, emblem);
            let mesh_h = MeshHandle(self.meshes.len() as u32);
            self.meshes.push(mesh);
            let material = find_material(&item.material, &self.material_by_id, pack);
            self.item_visuals.push(ItemVisual { mesh: mesh_h, material });
            proof {
                assert(self.meshes@.take(first as int) =~= before.meshes@.take(first as int));
                assert forall|k: int| 0 <= k < i implies #[trigger] self.item_visuals@[k]
                    == before.item_visuals@[k] && self.meshes@[first + k] == before.meshes@[first
                    + k] by {}
            }
            i = i + 1;
        }
        assert(self.meshes@.take(first as int) =~= was.meshes@);
    }

    /// A bundle that holds all of a pack's assets has no handle that leads nowhere.
    pub proof fn baked_is_well_formed<
        A: Fn(&MaterialDef, u32, u32) -> TextureData,
        N: Fn(&MaterialDef, u32, u32) -> TextureData,
        C: Fn(&MobDef, BakeQuality) -> (SkinnedMesh, RigAsset),
        G: Fn(u64, usize) -> Mesh,
    >(self, pack: ContentPack, quality: BakeQuality, albedo: A, normal: N, creature: C, emblem: G)
        requires
            pack.shaders@.len() <= u32::MAX,
            2 * pack.materials@.len() <= u32::MAX,
            pack.mobs@.len() + pack.items@.len() <= u32::MAX,
            self.has_shaders(pack),
            self.has_materials(pack, quality, albedo, normal),
            self.has_mobs(pack, quality, creature),
            self.has_items(pack, quality, emblem),
        ensures
            self.well_formed(),
    {
        assert forall|name: Option<MaterialId>| #[trigger]
            named_material(name, pack.materials@) matches Some(m) ==> m.0
                < pack.materials@.len() by {
            if name is Some {
                place_in_range(pack.materials@, name->0@);
            }
        }
        assert forall|i: int| 0 <= i < self.materials@.len() implies {
            let m = #[trigger] self.materials@[i];
            &&& m.albedo.0 < self.textures@.len()
            &&& m.normal.0 < self.textures@.len()
            &&& m.shader matches Some(s) ==> s.0 < self.shaders@.len()
        } by {
            assert(is_material(pack.materials@[i], i, pack.shaders@, self.materials@[i]));
            if pack.materials@[i].shader is Some {
                place_in_range(pack.shaders@, pack.materials@[i].shader->0@);
            }
        }
        assert forall|i: int| 0 <= i < self.mob_visuals@.len() implies {
            let v = #[trigger] self.mob_visuals@[i];
            &&& v.mesh.0 < self.meshes@.len()
            &&& v.rig.0 < self.rigs@.len()
            &&& v.material matches Some(m) ==> m.0 < self.materials@.len()
        } by {
            assert(self.mob_visuals@[i].material == named_material(
                pack.mobs@[i].material,
                pack.materials@,
            ));
        }
        assert forall|i: int| 0 <= i < self.item_visuals@.len() implies {
            let v = #[trigger] self.item_visuals@[i];
            &&& v.mesh.0 < self.meshes@.len()
            &&& v.material matches Some(m) ==> m.0 < self.materials@.len()
        } by {
            assert(self.item_visuals@[i].material == named_material(
                pack.items@[i].material,
                pack.materials@,
            ));
        }
    }

    /// The draw set for a creature, by mob id (`"mob.wisp"`).
    pub fn mob_visual(&self, mob_id: &str) -> (r: Option<MobVisual>)
        requires
            self.well_formed(),
        ensures
            if self.mob_by_id@.contains_key(mob_id@) {
                r == Some(self.mob_visuals@[self.mob_by_id@[mob_id@] as int])
            } else {
                r is None
            },
    {
        match self.mob_by_id.get(mob_id) {
            Some(i) => Some(self.mob_visuals[*i]),
            None => None,
        }
    }

    /// The draw set for an item, by item id (`"item.ember_staff"`).
    pub fn item_visual(&self, item_id: &str) -> (r: Option<ItemVisual>)
        requires
            self.well_formed(),
        ensures
            if self.item_by_id@.contains_key(item_id@) {
                r == Some(self.item_visuals@[self.item_by_id@[item_id@] as int])
            } else {
                r is None
            },
    {
        match self.item_by_id.get(item_id) {
            Some(i) => Some(self.item_visuals[*i]),
            None => None,
        }
    }

    /// Resolve a material handle by content id (e.g. for terrain surface materials).
    pub fn material_handle(&self, material_id: &str) -> (r: Option<MaterialHandle>)
        requires
            self.well_formed(),
        ensures
            if self.material_by_id@.contains_key(material_id@) {
                r == Some(MaterialHandle(self.material_by_id@[material_id@] as u32))
            } else {
                r is None
            },
            r matches Some(h) ==> h.0 < self.materials@.len(),
    {
        match self.material_by_id.get(material_id) {
            Some(i) => Some(MaterialHandle(*i as u32)),
            None => None,
        }
    }

    /// Resolve a shader handle by content id.
    pub fn shader_handle(&self, shader_id: &str) -> (r: Option<ShaderHandle>)
        requires
            self.well_formed(),
        ensures
            if self.shader_by_id@.contains_key(shader_id@) {
                r == Some(ShaderHandle(self.shader_by_id@[shader_id@] as u32))
            } else {
                r is None
            },
            r matches Some(h) ==> h.0 < self.shaders@.len(),
    {
        match self.shader_by_id.get(shader_id) {
            Some(i) => Some(ShaderHandle(*i as u32)),
            None => None,
        }
    }

    pub fn mesh(&self, h: MeshHandle) -> (r: &SkinnedMesh)
        requires
            h.0 < self.meshes@.len(),
        ensures
            *r == self.meshes@[h.0 as int],
    {
        &self.meshes[h.index()]
    }

    pub fn texture(&self, h: TextureHandle) -> (r: &TextureAsset)
        requires
            h.0 < self.textures@.len(),
        ensures
            *r == self.textures@[h.0 as int],
    {
        &self.textures[h.index()]
    }

    pub fn material(&self, h: MaterialHandle) -> (r: &MaterialAsset)
        requires
            h.0 < self.materials@.len(),
        ensures
            *r == self.materials@[h.0 as int],
    {
        &self.materials[h.index()]
    }

    pub fn shader(&self, h: ShaderHandle) -> (r: &ShaderAsset)
        requires
            h.0 < self.shaders@.len(),
        ensures
            *r == self.shaders@[h.0 as int],
    {
        &self.shaders[h.index()]
    }

    pub fn rig(&self, h: RigHandle) -> (r: &RigAsset)
        requires
            h.0 < self.rigs@.len(),
        ensures
            *r == self.rigs@[h.0 as int],
    {
        &self.rigs[h.index()]
    }

    /// Total baked asset count (handy for an asset HUD / budget telemetry).
    pub fn asset_count(&self) -> (r: usize)
        requires
            self.meshes@.len() + self.textures@.len() + self.materials@.len() + self.shaders@.len()
                + self.rigs@.len() <= usize::MAX,
        ensures
            r == self.meshes@.len() + self.textures@.len() + self.materials@.len()
                + self.shaders@.len() + self.rigs@.len(),
    {
        self.meshes.len() + self.textures.len() + self.materials.len() + self.shaders.len()
            + self.rigs.len()
    }
}

proof fn place_in_range<T: Keyed>(defs: Seq<T>, key: Seq<char>)
    requires
        defs.len() <= u32::MAX,
    ensures
        place_of(defs, key) matches Some(i) ==> 0 <= i < defs.len() && defs[i].key() == key,
{
    if defines(defs, key) {
        let i = choose|i: int| 0 <= i < defs.len() && #[trigger] defs[i].key() == key;
        last_exists(defs, key, i);
    }
}

proof fn last_exists<T: Keyed>(defs: Seq<T>, key: Seq<char>, i: int)
    requires
        0 <= i < defs.len(),
        defs[i].key() == key,
    ensures
        exists|j: int| #[trigger] last_of_key(defs, j) && defs[j].key() == key,
    decreases defs.len() - i,
{
    if !last_of_key(defs, i) {
        let j = choose|j: int| i < j < defs.len() && #[trigger] defs[j].key() == defs[i].key();
        last_exists(defs, key, j);
    }
}

/// Every creature and every item of the pack can be drawn.
pub proof fn everything_has_a_visual<C: Fn(&MobDef, BakeQuality) -> (SkinnedMesh, RigAsset), G: Fn(u64, usize) -> Mesh>(
    bundle: AssetBundle,
    pack: ContentPack,
    quality: BakeQuality,
    creature: C,
    emblem: G,
    i: int,
)
    requires
        bundle.has_mobs(pack, quality, creature),
        bundle.has_items(pack, quality, emblem),
    ensures
        0 <= i < pack.mobs@.len() ==> bundle.mob_by_id@.contains_key(pack.mobs@[i].id@),
        0 <= i < pack.items@.len() ==> bundle.item_by_id@.contains_key(pack.items@[i].id@),
{
    if 0 <= i < pack.mobs@.len() {
        assert(pack.mobs@[i].key() == pack.mobs@[i].id@);
        assert(defines(pack.mobs@, pack.mobs@[i].id@));
        assert(keys(pack.mobs@).contains(pack.mobs@[i].id@));
    }
    if 0 <= i < pack.items@.len() {
        assert(pack.items@[i].key() == pack.items@[i].id@);
        assert(defines(pack.items@, pack.items@[i].id@));
        assert(keys(pack.items@).contains(pack.items@[i].id@));
    }
}

proof fn place_tells<T: Keyed>(defs: Seq<T>, key: Seq<char>)
    requires
        defs.len() <= u32::MAX,
    ensures
        match place_of(defs, key) {
            Some(i) => {
                &&& 0 <= i < defs.len()
                &&& defs[i].key() == key
                &&& forall|j: int| i < j < defs.len() ==> #[trigger] defs[j].key() != key
            },
            None => forall|j: int| 0 <= j < defs.len() ==> #[trigger] defs[j].key() != key,
        },
{
    place_in_range(defs, key);
    if defines(defs, key) {
        let i = choose|i: int| 0 <= i < defs.len() && #[trigger] defs[i].key() == key;
        last_exists(defs, key, i);
        let j = choose|j: int| #[trigger] last_of_key(defs, j) && defs[j].key() == key;
        place_is(defs, j);
    }
}

/// A creature wears the material that it names: the handle of its draw set leads to the last
/// material of that id, and it has no material only if it names none or the pack has none of that
/// id.
pub proof fn mobs_wear_what_they_name<C: Fn(&MobDef, BakeQuality) -> (SkinnedMesh, RigAsset)>(
    bundle: AssetBundle,
    pack: ContentPack,
    quality: BakeQuality,
    creature: C,
    i: int,
)
    requires
        2 * pack.materials@.len() <= u32::MAX,
        bundle.has_mobs(pack, quality, creature),
        0 <= i < pack.mobs@.len(),
    ensures
        match (pack.mobs@[i].material, bundle.mob_visuals@[i].material) {
            (Some(id), Some(h)) => {
                &&& h.0 < pack.materials@.len()
                &&& pack.materials@[h.0 as int].id@ == id@
                &&& forall|j: int|
                    h.0 < j < pack.materials@.len() ==> (#[trigger] pack.materials@[j]).id@ != id@
            },
            (Some(id), None) => forall|j: int|
                0 <= j < pack.materials@.len() ==> (#[trigger] pack.materials@[j]).id@ != id@,
            (None, worn) => worn is None,
        },
{
    let materials = pack.materials@;
    assert(bundle.mob_visuals@[i].material == named_material(pack.mobs@[i].material, materials));
    if let Some(id) = pack.mobs@[i].material {
        place_tells(materials, id@);
        assert forall|j: int| 0 <= j < materials.len() implies (#[trigger] materials[j]).id@
            == materials[j].key() by {}
    }
}

/// An item wears the material that it names, in the same way.
pub proof fn items_wear_what_they_name<G: Fn(u64, usize) -> Mesh>(
    bundle: AssetBundle,
    pack: ContentPack,
    quality: BakeQuality,
    emblem: G,
    i: int,
)
    requires
        2 * pack.materials@.len() <= u32::MAX,
        bundle.has_items(pack, quality, emblem),
        0 <= i < pack.items@.len(),
    ensures
        match (pack.items@[i].material, bundle.item_visuals@[i].material) {
            (Some(id), Some(h)) => {
                &&& h.0 < pack.materials@.len()
                &&& pack.materials@[h.0 as int].id@ == id@
                &&& forall|j: int|
                    h.0 < j < pack.materials@.len() ==> (#[trigger] pack.materials@[j]).id@ != id@
            },
            (Some(id), None) => forall|j: int|
                0 <= j < pack.materials@.len() ==> (#[trigger] pack.materials@[j]).id@ != id@,
            (None, worn) => worn is None,
        },
{
    let materials = pack.materials@;
    assert(bundle.item_visuals@[i].material == named_material(pack.items@[i].material, materials));
    if let Some(id) = pack.items@[i].material {
        place_tells(materials, id@);
        assert forall|j: int| 0 <= j < materials.len() implies (#[trigger] materials[j]).id@
            == materials[j].key() by {}
    }
}

/// A material is drawn by the shader that it names, in the same way, and with textures grown for
/// it from its own id: the colours at its albedo handle, the data at its normal handle. Its surface
/// is the authored one.
pub proof fn materials_draw_with_what_they_name<
    A: Fn(&MaterialDef, u32, u32) -> TextureData,
    N: Fn(&MaterialDef, u32, u32) -> TextureData,
>(bundle: AssetBundle, pack: ContentPack, quality: BakeQuality, albedo: A, normal: N, i: int)
    requires
        pack.shaders@.len() <= u32::MAX,
        2 * pack.materials@.len() <= u32::MAX,
        bundle.has_materials(pack, quality, albedo, normal),
        0 <= i < pack.materials@.len(),
    ensures
        match (pack.materials@[i].shader, bundle.materials@[i].shader) {
            (Some(id), Some(h)) => {
                &&& h.0 < pack.shaders@.len()
                &&& pack.shaders@[h.0 as int].id@ == id@
                &&& forall|j: int|
                    h.0 < j < pack.shaders@.len() ==> (#[trigger] pack.shaders@[j]).id@ != id@
            },
            (Some(id), None) => forall|j: int|
                0 <= j < pack.shaders@.len() ==> (#[trigger] pack.shaders@[j]).id@ != id@,
            (None, drawn) => drawn is None,
        },
        bundle.materials@[i].roughness == pack.materials@[i].roughness,
        bundle.materials@[i].metallic == pack.materials@[i].metallic,
        bundle.materials@[i].emissive == pack.materials@[i].emissive,
        bundle.materials@[i].emissive_color == pack.materials@[i].emissive_color,
        bundle.materials@[i].triplanar_scale == pack.materials@[i].triplanar_scale,
        bundle.materials@[i].displacement == pack.materials@[i].displacement,
        exists|t: TextureData|
            {
                let at = bundle.textures@[bundle.materials@[i].albedo.0 as int];
                &&& #[trigger] call_ensures(
                    albedo,
                    (
                        &pack.materials@[i],
                        quality.texture_size,
                        seed_from(encode_utf8(pack.materials@[i].id@)),
                    ),
                    t,
                )
                &&& at.width == t.width && at.height == t.height && at.rgba == t.rgba && at.srgb
            },
        exists|t: TextureData|
            {
                let at = bundle.textures@[bundle.materials@[i].normal.0 as int];
                &&& #[trigger] call_ensures(
                    normal,
                    (
                        &pack.materials@[i],
                        quality.texture_size,
                        seed_from(encode_utf8(pack.materials@[i].id@)),
                    ),
                    t,
                )
                &&& at.width == t.width && at.height == t.height && at.rgba == t.rgba && !at.srgb
            },
{
    let shaders = pack.shaders@;
    let mat = pack.materials@[i];
    assert(is_material(mat, i, shaders, bundle.materials@[i]));
    if let Some(id) = mat.shader {
        place_tells(shaders, id@);
        assert forall|j: int| 0 <= j < shaders.len() implies (#[trigger] shaders[j]).id@
            == shaders[j].key() by {}
    }
}

/// Asking for a creature by its id gives that creature: the mesh and the rig at the handles of its
/// draw set are the ones baked from it.
pub proof fn a_mob_is_drawn_by_its_id<C: Fn(&MobDef, BakeQuality) -> (SkinnedMesh, RigAsset)>(
    bundle: AssetBundle,
    pack: ContentPack,
    quality: BakeQuality,
    creature: C,
    i: int,
)
    requires
        pack.mobs@.len() <= u32::MAX,
        bundle.has_mobs(pack, quality, creature),
        0 <= i < pack.mobs@.len(),
        forall|j: int|
            i < j < pack.mobs@.len() ==> (#[trigger] pack.mobs@[j]).id@ != pack.mobs@[i].id@,
    ensures
        bundle.mob_by_id@.contains_key(pack.mobs@[i].id@),
        ({
            let v = bundle.mob_visuals@[bundle.mob_by_id@[pack.mobs@[i].id@] as int];
            call_ensures(
                creature,
                (&pack.mobs@[i], quality),
                (bundle.meshes@[v.mesh.0 as int], bundle.rigs@[v.rig.0 as int]),
            )
        }),
{
    let mobs = pack.mobs@;
    let id = mobs[i].id@;
    assert forall|j: int| 0 <= j < mobs.len() implies (#[trigger] mobs[j]).id@ == mobs[j].key() by {}
    assert(mobs[i].key() == id);
    assert(defines(mobs, id));
    assert(keys(mobs).contains(id));
    let at = bundle.mob_by_id@[id] as int;
    assert(last_of_key(mobs, at) && mobs[at].key() == id);
    if at < i {
        assert(mobs[i].key() != mobs[at].key());
    }
    assert(bundle.mob_visuals@[i].mesh.0 == i);
}

/// Asking for an item by its id gives that item: the mesh at the handle of its draw set is a
/// static one, grown from the item's own id and no finer than the quality asks.
pub proof fn an_item_is_drawn_by_its_id<G: Fn(u64, usize) -> Mesh>(
    bundle: AssetBundle,
    pack: ContentPack,
    quality: BakeQuality,
    emblem: G,
    i: int,
)
    requires
        pack.mobs@.len() + pack.items@.len() <= u32::MAX,
        bundle.has_items(pack, quality, emblem),
        0 <= i < pack.items@.len(),
        forall|j: int|
            i < j < pack.items@.len() ==> (#[trigger] pack.items@[j]).id@ != pack.items@[i].id@,
    ensures
        bundle.item_by_id@.contains_key(pack.items@[i].id@),
        ({
            let v = bundle.item_visuals@[bundle.item_by_id@[pack.items@[i].id@] as int];
            let drawn = bundle.meshes@[v.mesh.0 as int];
            exists|mesh: Mesh, res: usize|
                {
                    &&& #[trigger] call_ensures(emblem, (fnv_hash(pack.items@[i].id@), res), mesh)
                    &&& res <= quality.mesh_res && res <= 24 && (res == quality.mesh_res || res == 24)
                    &&& drawn.positions == mesh.positions
                    &&& drawn.indices == mesh.indices
                    &&& drawn.joints@.len() == 0
                }
        }),
{
    let items = pack.items@;
    let id = items[i].id@;
    assert forall|j: int| 0 <= j < items.len() implies (#[trigger] items[j]).id@
        == items[j].key() by {}
    assert(items[i].key() == id);
    assert(defines(items, id));
    assert(keys(items).contains(id));
    let at = bundle.item_by_id@[id] as int;
    assert(last_of_key(items, at) && items[at].key() == id);
    if at < i {
        assert(items[i].key() != items[at].key());
    }
    assert(bundle.item_visuals@[i].mesh.0 == pack.mobs@.len() + i);
}

/// A baked shader is the one that was authored.
pub proof fn shaders_are_passed_on(bundle: AssetBundle, pack: ContentPack, i: int)
    requires
        bundle.has_shaders(pack),
        0 <= i < pack.shaders@.len(),
    ensures
        bundle.shaders@[i].source@ == pack.shaders@[i].source@,
        bundle.shaders@[i].stage == pack.shaders@[i].stage,
        bundle.shaders@[i].params@ == pack.shaders@[i].params@,
{
    assert(is_baked_shader(pack.shaders@[i], bundle.shaders@[i]));
}

/// A baked material keeps its definition's surface, and has textures of its own: a colour map of what
/// `albedo` makes of the material at the quality's size, and a linear map of what `normal` makes of it.
pub proof fn materials_have_their_own_textures<
    A: Fn(&MaterialDef, u32, u32) -> TextureData,
    N: Fn(&MaterialDef, u32, u32) -> TextureData,
    C: Fn(&MobDef, BakeQuality) -> (SkinnedMesh, RigAsset),
    G: Fn(u64, usize) -> Mesh,
>(
    pack: &ContentPack,
    encoded: &[u8],
    quality: BakeQuality,
    albedo: &A,
    normal: &N,
    creature: &C,
    emblem: &G,
    b: AssetBundle,
    i: int,
)
    requires
        call_ensures(
            AssetBundle::bake::<A, N, C, G>,
            (pack, encoded, quality, albedo, normal, creature, emblem),
            b,
        ),
        0 <= i < pack.materials@.len(),
    ensures
        ({
            let (mat, made) = (pack.materials@[i], b.materials@[i]);
            let (color, bumps) = (b.textures@[made.albedo.0 as int], b.textures@[made.normal.0 as int]);
            &&& made.roughness == mat.roughness && made.metallic == mat.metallic
            &&& made.emissive == mat.emissive && made.emissive_color == mat.emissive_color
            &&& made.triplanar_scale == mat.triplanar_scale && made.displacement == mat.displacement
            &&& color.srgb && !bumps.srgb
            &&& exists|t: TextureData|
                {
                    &&& #[trigger] call_ensures(
                        *albedo,
                        (&mat, quality.texture_size, seed_from(encode_utf8(mat.id@))),
                        t,
                    )
                    &&& color.width == t.width && color.height == t.height && color.rgba == t.rgba
                }
            &&& exists|t: TextureData|
                {
                    &&& #[trigger] call_ensures(
                        *normal,
                        (&mat, quality.texture_size, seed_from(encode_utf8(mat.id@))),
                        t,
                    )
                    &&& bumps.width == t.width && bumps.height == t.height && bumps.rgba == t.rgba
                }
        }),
        forall|k: int|
            0 <= k < pack.materials@.len() && k != i ==> (#[trigger] b.materials@[k]).albedo
                != b.materials@[i].albedo && b.materials@[k].normal != b.materials@[i].normal,
{
    assert(is_material(pack.materials@[i], i, pack.shaders@, b.materials@[i]));
    assert forall|k: int| 0 <= k < pack.materials@.len() && k != i implies (
    #[trigger] b.materials@[k]).albedo != b.materials@[i].albedo && b.materials@[k].normal
        != b.materials@[i].normal by {
        assert(is_material(pack.materials@[k], k, pack.shaders@, b.materials@[k]));
    }
}

} // verus!
