//! Bakers: turning one content definition into its GPU-ready payload. The shapes come from
//! the generators that the caller hands in; [`crate::assets::bundle`] orchestrates them and
//! wires up cross-asset handles.

use crate::anim::skeleton::{folds, ordered, Skeleton};
use crate::anim::state::AnimatorConfig;
use crate::anim::transform::{Matrix, Transform};
use crate::assets::render_asset::{Mesh, RigAsset, ShaderAsset, SkinnedMesh};
use crate::assets::skin::{is_bound, skin_mesh};
use crate::content::item::ItemDef;
use crate::content::material::ShaderDef;
use crate::scalar::Scalar;
use crate::text::{fnv1a, fnv_hash};
use vstd::prelude::*;

verus! {

/// Mesh/texture detail for a bake. The same content bakes at any quality; a server or a
/// low-end phone just picks coarser numbers.
#[derive(Debug, Clone, Copy, PartialEq, Eq, Structural)]
pub struct BakeQuality {
    /// Grid resolution for creature/item meshes (higher = finer).
    pub mesh_res: usize,
    /// Square texture size baked per material (albedo + normal).
    pub texture_size: u32,
}

impl Default for BakeQuality {
    fn default() -> (r: Self)
        ensures
            r.mesh_res == 28,
            r.texture_size == 256,
    {
        BakeQuality { mesh_res: 28, texture_size: 256 }
    }
}

impl BakeQuality {
    /// A cheap preset for headless servers / tests (small meshes, tiny textures).
    pub fn low() -> (r: Self)
        ensures
            r.mesh_res == 16,
            r.texture_size == 64,
    {
        BakeQuality { mesh_res: 16, texture_size: 64 }
    }

    /// A high-detail preset for capable clients.
    pub fn high() -> (r: Self)
        ensures
            r.mesh_res == 40,
            r.texture_size == 512,
    {
        BakeQuality { mesh_res: 40, texture_size: 512 }
    }

    /// The grid resolution for an item's emblem: never finer than 24.
    pub open spec fn emblem_res(self) -> usize {
        if self.mesh_res < 24 {
            self.mesh_res
        } else {
            24
        }
    }
}

/// Every vertex of the mesh is bound to the joints at the origins of `globals`.
pub open spec fn is_skinned_to<
    W: Fn([Scalar; 3], [Scalar; 3]) -> Scalar,
    N: Fn([Scalar; 4]) -> [Scalar; 4],
>(m: SkinnedMesh, globals: Seq<Transform>, weigh: W, normalise: N) -> bool {
    let bones = Seq::new(globals.len(), |i: int| globals[i].translation);
    if bones.len() == 0 {
        m.joints@.len() == 0 && m.weights@.len() == 0
    } else {
        &&& m.joints@.len() == m.positions@.len()
        &&& m.weights@.len() == m.positions@.len()
        &&& forall|v: int|
            0 <= v < m.positions@.len() ==> is_bound(
                m.positions@[v],
                bones,
                weigh,
                normalise,
                #[trigger] m.joints@[v],
                #[trigger] m.weights@[v],
            )
    }
}

/// Bake a creature from its grown mesh and its skeleton: skin the one to the other, and
/// prepare the rig (skeleton + inverse binds + animator config).
pub fn bake_creature<
    F: Fn(Transform, Transform) -> Transform,
    G: Fn(Transform) -> Matrix,
    W: Fn([Scalar; 3], [Scalar; 3]) -> Scalar,
    N: Fn([Scalar; 4]) -> [Scalar; 4],
>(
    mesh: Mesh,
    skeleton: Skeleton,
    config: AnimatorConfig,
    chain: &F,
    invert: &G,
    weigh: &W,
    normalise: &N,
) -> (r: (SkinnedMesh, RigAsset))
    requires
        ordered(skeleton.joints@),
        skeleton.joints@.len() <= 0x1_0000,
        forall|a: Transform, b: Transform| call_requires(*chain, (a, b)),
        forall|t: Transform| call_requires(*invert, (t,)),
        forall|a: [Scalar; 3], b: [Scalar; 3]| call_requires(*weigh, (a, b)),
        forall|raw: [Scalar; 4]| call_requires(*normalise, (raw,)),
    ensures
        r.0.positions == mesh.positions,
        r.0.normals == mesh.normals,
        r.0.uvs == mesh.uvs,
        r.0.colors == mesh.colors,
        r.0.indices == mesh.indices,
        r.1.skeleton == skeleton,
        r.1.config == config,
        exists|globals: Seq<Transform>|
            {
                &&& #[trigger] folds(skeleton.joints@, skeleton.bind_locals(), *chain, globals)
                &&& is_skinned_to(r.0, globals, *weigh, *normalise)
            },
        r.1.inverse_bind@.len() == skeleton.joints@.len(),
        exists|globals: Seq<Transform>|
            {
                &&& #[trigger] folds(skeleton.joints@, skeleton.bind_locals(), *chain, globals)
                &&& forall|i: int|
                    0 <= i < r.1.inverse_bind@.len() ==> call_ensures(
                        *invert,
                        (globals[i],),
                        #[trigger] r.1.inverse_bind@[i],
                    )
            },
{
    let bones = skeleton.bind_positions(chain);
    let (joints, weights) = skin_mesh(&mesh.positions, &bones, weigh, normalise);
    let mut sm = SkinnedMesh::from_mesh(mesh);
    sm.joints = joints;
    sm.weights = weights;
    proof {
        let globals = choose|globals: Seq<Transform>|
            {
                &&& #[trigger] folds(skeleton.joints@, skeleton.bind_locals(), *chain, globals)
                &&& forall|i: int|
                    0 <= i < bones@.len() ==> #[trigger] bones@[i] == globals[i].translation
            };
        assert(Seq::new(globals.len(), |i: int| globals[i].translation) =~= bones@);
        assert(is_skinned_to(sm, globals, *weigh, *normalise));
    }
    let inverse_bind = skeleton.inverse_bind_matrices(chain, invert);
    (sm, RigAsset { skeleton, inverse_bind, config })
}

/// `r` is the static mesh that `grow` makes of the item's own seed.
pub open spec fn is_emblem<G: Fn(u64, usize) -> Mesh>(
    item: ItemDef,
    quality: BakeQuality,
    grow: G,
    r: SkinnedMesh,
) -> bool {
    exists|mesh: Mesh|
        {
            &&& #[trigger] call_ensures(grow, (fnv_hash(item.id@), quality.emblem_res()), mesh)
            &&& call_ensures(SkinnedMesh::from_mesh, (mesh,), r)
        }
}

/// Bake a static world/inventory mesh for an item. Items carry no mesh seed, so a stable
/// seed is derived from the item id: the same item always grows the same emblem.
pub fn bake_item_mesh<G: Fn(u64, usize) -> Mesh>(item: &ItemDef, quality: BakeQuality, grow: &G) -> (r:
    SkinnedMesh)
    requires
        forall|seed: u64, res: usize| call_requires(*grow, (seed, res)),
    ensures
        is_emblem(*item, quality, *grow, r),
{
    let res: usize = if quality.mesh_res < 24 {
        quality.mesh_res
    } else {
        24
    };
    let mesh = grow(fnv1a(item.id.as_str()), res);
    assert(call_ensures(*grow, (fnv_hash(item.id@), quality.emblem_res()), mesh));
    SkinnedMesh::from_mesh(mesh)
}

/// The asset is the definition's stage, source and uniforms.
pub open spec fn is_baked_shader(sh: ShaderDef, r: ShaderAsset) -> bool {
    &&& r.stage == sh.stage
    &&& r.source == sh.source
    &&& r.params@ == sh.params@
}

/// Bake a shader definition into a compile-ready asset (a straight pass-through of its WGSL
/// + stage + params).
pub fn bake_shader(sh: &ShaderDef) -> (r: ShaderAsset)
    ensures
        is_baked_shader(*sh, r),
{
    let mut params: Vec<(String, Scalar)> = Vec::new();
    let mut i: usize = 0;
    while i < sh.params.len()
        invariant
            i <= sh.params.len(),
            params@ == sh.params@.take(i as int),
        decreases sh.params.len() - i,
    {
        params.push((sh.params[i].0.clone(), sh.params[i].1));
        assert(params@ =~= sh.params@.take(i + 1));
        i = i + 1;
    }
    assert(params@ =~= sh.params@);
    ShaderAsset { stage: sh.stage, source: sh.source.clone(), params }
}

/// An item's emblem is what the generator makes of the item's id, at the quality's resolution or at
/// twenty-four if that is finer; nothing of the mesh is lost, and no bone moves it.
pub proof fn emblems_grow_from_the_id<G: Fn(u64, usize) -> Mesh>(
    item: &ItemDef,
    quality: BakeQuality,
    grow: &G,
    r: SkinnedMesh,
)
    requires
        call_ensures(bake_item_mesh::<G>, (item, quality, grow), r),
    ensures
        exists|mesh: Mesh, res: usize|
            {
                &&& #[trigger] call_ensures(*grow, (fnv_hash(item.id@), res), mesh)
                &&& res <= quality.mesh_res && res <= 24
                &&& res == quality.mesh_res || res == 24
                &&& r.positions == mesh.positions
                &&& r.normals == mesh.normals
                &&& r.uvs == mesh.uvs
                &&& r.colors == mesh.colors
                &&& r.indices == mesh.indices
            },
        r.joints@.len() == 0,
        r.weights@.len() == 0,
{
    let res = quality.emblem_res();
    let mesh = choose|mesh: Mesh|
        {
            &&& #[trigger] call_ensures(*grow, (fnv_hash(item.id@), quality.emblem_res()), mesh)
            &&& call_ensures(SkinnedMesh::from_mesh, (mesh,), r)
        };
    assert(call_ensures(*grow, (fnv_hash(item.id@), res), mesh));
}

/// A baked shader is the definition's own stage, source and uniforms.
pub proof fn shaders_are_kept(sh: &ShaderDef, r: ShaderAsset)
    requires
        call_ensures(bake_shader, (sh,), r),
    ensures
        r.stage == sh.stage,
        r.source@ == sh.source@,
        r.params@ == sh.params@,
{
}

} // verus!
