//! GPU-ready CPU payloads — the "upload me" structs.
//!
//! Each type here is exactly what a renderer maps 1:1 onto GPU resources: a
//! [`SkinnedMesh`] becomes vertex + index buffers, a [`TextureAsset`] becomes a 2D texture,
//! a [`MaterialAsset`] becomes a bind group, a [`ShaderAsset`] becomes a pipeline.

use crate::anim::skeleton::Skeleton;
use crate::anim::state::{Animator, AnimatorConfig};
use crate::anim::transform::Matrix;
use crate::assets::handle::{ShaderHandle, TextureHandle};
use crate::content::material::ShaderStage;
use crate::scalar::{one, zero, Scalar, ONE};
use vstd::prelude::*;

verus! {

/// A generated mesh: parallel vertex attributes and triangle indices.
#[derive(Debug, Clone)]
pub struct Mesh {
    pub positions: Vec<[Scalar; 3]>,
    pub normals: Vec<[Scalar; 3]>,
    pub uvs: Vec<[Scalar; 2]>,
    pub colors: Vec<[Scalar; 4]>,
    pub indices: Vec<u32>,
}

/// A renderable mesh with optional skinning. For static meshes (items, terrain chunks,
/// projectile fx) `joints`/`weights` are empty and the renderer binds the rigid path; for
/// creatures they carry up to four bone influences per vertex.
#[derive(Debug, Clone)]
pub struct SkinnedMesh {
    pub positions: Vec<[Scalar; 3]>,
    pub normals: Vec<[Scalar; 3]>,
    pub uvs: Vec<[Scalar; 2]>,
    pub colors: Vec<[Scalar; 4]>,
    pub indices: Vec<u32>,
    /// Up to four bone indices per vertex (into the rig's skeleton). Empty = static.
    pub joints: Vec<[u16; 4]>,
    /// Bone weights matching `joints`, summing to ~1 per vertex. Empty = static.
    pub weights: Vec<[Scalar; 4]>,
}

impl SkinnedMesh {
    /// Wrap a generated [`Mesh`] as a static (un-skinned) renderable mesh.
    pub fn from_mesh(mesh: Mesh) -> (r: Self)
        ensures
            r.positions == mesh.positions,
            r.normals == mesh.normals,
            r.uvs == mesh.uvs,
            r.colors == mesh.colors,
            r.indices == mesh.indices,
            r.joints@.len() == 0,
            r.weights@.len() == 0,
    {
        SkinnedMesh {
            positions: mesh.positions,
            normals: mesh.normals,
            uvs: mesh.uvs,
            colors: mesh.colors,
            indices: mesh.indices,
            joints: Vec::new(),
            weights: Vec::new(),
        }
    }

    /// True if this mesh carries bone influences (drawn with the skinned pipeline).
    pub fn is_skinned(&self) -> (r: bool)
        ensures
            r == (self.joints@.len() != 0 && self.joints@.len() == self.positions@.len()),
    {
        self.joints.len() != 0 && self.joints.len() == self.positions.len()
    }

    pub fn vertex_count(&self) -> (r: usize)
        ensures
            r == self.positions@.len(),
    {
        self.positions.len()
    }

    pub fn tri_count(&self) -> (r: usize)
        ensures
            r == self.indices@.len() / 3,
    {
        self.indices.len() / 3
    }
}

impl Default for SkinnedMesh {
    fn default() -> (r: Self)
        ensures
            r.positions@.len() == 0,
            r.normals@.len() == 0,
            r.uvs@.len() == 0,
            r.colors@.len() == 0,
            r.indices@.len() == 0,
            r.joints@.len() == 0,
            r.weights@.len() == 0,
    {
        SkinnedMesh {
            positions: Vec::new(),
            normals: Vec::new(),
            uvs: Vec::new(),
            colors: Vec::new(),
            indices: Vec::new(),
            joints: Vec::new(),
            weights: Vec::new(),
        }
    }
}

/// One interleaved vertex, as the surface shader reads it.
#[derive(Debug, Clone, Copy)]
pub struct Vertex {
    /// Object-space position.
    pub pos: [Scalar; 3],
    /// Object-space normal (for lighting / triplanar blending).
    pub normal: [Scalar; 3],
    /// Texture / triplanar coordinate.
    pub uv: [Scalar; 2],
    /// Per-vertex linear RGBA tint (generators bake organic colour variation here).
    pub color: [Scalar; 4],
}

impl Mesh {
    /// The vertex at `i`. An attribute that the mesh does not give is the up normal, the
    /// zero coordinate or white.
    pub open spec fn is_vertex(self, i: int, v: Vertex) -> bool {
        let nil = Scalar { bits: 0 };
        let unit = Scalar { bits: ONE };
        &&& v.pos == self.positions@[i]
        &&& v.normal@ == if i < self.normals@.len() {
            self.normals@[i]@
        } else {
            seq![nil, unit, nil]
        }
        &&& v.uv@ == if i < self.uvs@.len() {
            self.uvs@[i]@
        } else {
            seq![nil, nil]
        }
        &&& v.color@ == if i < self.colors@.len() {
            self.colors@[i]@
        } else {
            seq![unit, unit, unit, unit]
        }
    }

    /// Interleave the parallel attribute arrays into [`Vertex`]es. Any attribute array
    /// shorter than the position array is padded with a sensible default (up normal, zero
    /// uv, white) so a mesh that omits, say, vertex colours still renders.
    pub fn interleave(&self) -> (r: Vec<Vertex>)
        ensures
            r@.len() == self.positions@.len(),
            forall|i: int| 0 <= i < r@.len() ==> self.is_vertex(i, #[trigger] r@[i]),
    {
        let mut out: Vec<Vertex> = Vec::new();
        let mut i: usize = 0;
        while i < self.positions.len()
            invariant
                i <= self.positions.len(),
                out@.len() == i,
                forall|k: int| 0 <= k < i ==> self.is_vertex(k, #[trigger] out@[k]),
            decreases self.positions.len() - i,
        {
            let normal = if i < self.normals.len() {
                self.normals[i]
            } else {
                [zero(), one(), zero()]
            };
            let uv = if i < self.uvs.len() {
                self.uvs[i]
            } else {
                [zero(), zero()]
            };
            let color = if i < self.colors.len() {
                self.colors[i]
            } else {
                [one(), one(), one(), one()]
            };
            out.push(Vertex { pos: self.positions[i], normal, uv, color });
            i = i + 1;
        }
        out
    }
}

/// A generated texture: tightly-packed RGBA8 pixels plus dimensions.
#[derive(Debug, Clone)]
pub struct TextureData {
    pub width: u32,
    pub height: u32,
    /// Row-major RGBA8, `width * height * 4` bytes.
    pub rgba: Vec<u8>,
}

/// A 2D texture: tightly-packed RGBA8 pixels plus dimensions and a colour-space hint.
#[derive(Debug, Clone)]
pub struct TextureAsset {
    pub width: u32,
    pub height: u32,
    /// Row-major RGBA8, `width * height * 4` bytes.
    pub rgba: Vec<u8>,
    /// True for albedo/colour maps (sample/upload as sRGB); false for data maps (normal
    /// maps, masks) which must stay linear.
    pub srgb: bool,
}

impl TextureAsset {
    /// Adopt a [`TextureData`] as a colour (`srgb`) or data (`linear`) texture.
    pub fn from_texture(t: TextureData, srgb: bool) -> (r: Self)
        ensures
            r == (TextureAsset { width: t.width, height: t.height, rgba: t.rgba, srgb }),
    {
        TextureAsset { width: t.width, height: t.height, rgba: t.rgba, srgb }
    }
}

impl Default for TextureAsset {
    fn default() -> (r: Self)
        ensures
            r.width == 0,
            r.height == 0,
            r.rgba@.len() == 0,
            !r.srgb,
    {
        TextureAsset { width: 0, height: 0, rgba: Vec::new(), srgb: false }
    }
}

/// PBR surface parameters + the texture/shader handles a material binds. Mirrors the
/// designer-facing material definition but resolved to concrete baked-asset handles, so
/// the renderer needs zero content lookups at draw time.
#[derive(Debug, Clone, Copy)]
pub struct MaterialAsset {
    pub albedo: TextureHandle,
    pub normal: TextureHandle,
    pub roughness: Scalar,
    pub metallic: Scalar,
    pub emissive: Scalar,
    pub emissive_color: [Scalar; 3],
    pub triplanar_scale: Scalar,
    pub displacement: Scalar,
    /// Custom surface shader, if the material names one; else the renderer's default.
    pub shader: Option<ShaderHandle>,
}

/// A shader program ready to compile: the raw WGSL plus its render stage and the
/// designer-exposed scalar uniforms (name + default).
#[derive(Debug, Clone)]
pub struct ShaderAsset {
    pub stage: ShaderStage,
    pub source: String,
    pub params: Vec<(String, Scalar)>,
}

/// A baked rig: the skeleton, its cached inverse-bind matrices, and the animator
/// configuration tuned for this creature.
#[derive(Debug, Clone)]
pub struct RigAsset {
    pub skeleton: Skeleton,
    pub inverse_bind: Vec<Matrix>,
    pub config: AnimatorConfig,
}

impl RigAsset {
    /// Instantiate a fresh, independent [`Animator`] for one creature instance. Cheap
    /// relative to a bake (copies plain data); call it per spawned entity.
    pub fn animator(&self) -> (r: Animator)
        ensures
            r.skeleton.joints@ == self.skeleton.joints@,
            r.inverse_bind@ == self.inverse_bind@,
            r.config == self.config,
            r.at_rest(),
            r.current.locals@ == self.skeleton.bind_locals(),
    {
        let mut inverse_bind: Vec<Matrix> = Vec::new();
        let mut i: usize = 0;
        while i < self.inverse_bind.len()
            invariant
                i <= self.inverse_bind.len(),
                inverse_bind@ == self.inverse_bind@.take(i as int),
            decreases self.inverse_bind.len() - i,
        {
            inverse_bind.push(self.inverse_bind[i]);
            assert(inverse_bind@ =~= self.inverse_bind@.take(i + 1));
            i = i + 1;
        }
        assert(inverse_bind@ =~= self.inverse_bind@);
        let skeleton = self.skeleton.duplicate();
        assert(skeleton.bind_locals() =~= self.skeleton.bind_locals());
        Animator::new(skeleton, inverse_bind, self.config)
    }
}

/// Interleaving keeps every attribute of every vertex where the mesh gives it, and fills in the up
/// normal, the zero coordinate and white where it does not.
pub proof fn vertices_keep_their_attributes(mesh: &Mesh, r: Vec<Vertex>, i: int)
    requires
        call_ensures(Mesh::interleave, (mesh,), r),
        0 <= i < mesh.positions@.len(),
    ensures
        r@.len() == mesh.positions@.len(),
        r@[i].pos == mesh.positions@[i],
        i < mesh.normals@.len() ==> r@[i].normal@ == mesh.normals@[i]@,
        i < mesh.uvs@.len() ==> r@[i].uv@ == mesh.uvs@[i]@,
        i < mesh.colors@.len() ==> r@[i].color@ == mesh.colors@[i]@,
        i >= mesh.normals@.len() ==> r@[i].normal@ == seq![
            Scalar { bits: 0 },
            Scalar { bits: 0x3f80_0000 },
            Scalar { bits: 0 },
        ],
        i >= mesh.uvs@.len() ==> r@[i].uv@ == seq![Scalar { bits: 0 }, Scalar { bits: 0 }],
        i >= mesh.colors@.len() ==> r@[i].color@ == seq![
            Scalar { bits: 0x3f80_0000 },
            Scalar { bits: 0x3f80_0000 },
            Scalar { bits: 0x3f80_0000 },
            Scalar { bits: 0x3f80_0000 },
        ],
{
    assert(mesh.is_vertex(i, r@[i]));
}

} // verus!
