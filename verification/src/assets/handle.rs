//! Asset handles and content-addressed keys.
//!
//! A handle is a small `Copy` index into one of the [`crate::assets::bundle::AssetBundle`]'s
//! arrays. The renderer uploads each referenced asset to the GPU exactly once and
//! thereafter refers to it by handle.
//!
//! [`AssetKey`] is the *content-addressed* identity used by the on-demand cache: the asset
//! kind + a content id + the pack hash. Same key, same bytes: reuse the bake; a new pack
//! hash gives a fresh key and a fresh bake.

use crate::text::same;
use vstd::prelude::*;

verus! {

/// Index of a baked mesh in the bundle.
#[derive(Debug, Clone, Copy, PartialEq, Eq, PartialOrd, Ord, Hash, Structural)]
pub struct MeshHandle(pub u32);

impl MeshHandle {
    pub fn index(self) -> (r: usize)
        ensures
            r == self.0,
    {
        self.0 as usize
    }
}

/// Index of a baked texture in the bundle.
#[derive(Debug, Clone, Copy, PartialEq, Eq, PartialOrd, Ord, Hash, Structural)]
pub struct TextureHandle(pub u32);

impl TextureHandle {
    pub fn index(self) -> (r: usize)
        ensures
            r == self.0,
    {
        self.0 as usize
    }
}

/// Index of a baked material in the bundle.
#[derive(Debug, Clone, Copy, PartialEq, Eq, PartialOrd, Ord, Hash, Structural)]
pub struct MaterialHandle(pub u32);

impl MaterialHandle {
    pub fn index(self) -> (r: usize)
        ensures
            r == self.0,
    {
        self.0 as usize
    }
}

/// Index of a baked shader in the bundle.
#[derive(Debug, Clone, Copy, PartialEq, Eq, PartialOrd, Ord, Hash, Structural)]
pub struct ShaderHandle(pub u32);

impl ShaderHandle {
    pub fn index(self) -> (r: usize)
        ensures
            r == self.0,
    {
        self.0 as usize
    }
}

/// Index of a baked skeleton + animator template in the bundle.
#[derive(Debug, Clone, Copy, PartialEq, Eq, PartialOrd, Ord, Hash, Structural)]
pub struct RigHandle(pub u32);

impl RigHandle {
    pub fn index(self) -> (r: usize)
        ensures
            r == self.0,
    {
        self.0 as usize
    }
}

/// The kind of asset a key addresses. Distinguishes otherwise-identical content ids (a mob
/// has both a mesh and a rig keyed off the same `MobId`).
#[derive(Debug, Clone, Copy, PartialEq, Eq, Hash, Structural)]
pub enum AssetKind {
    Mesh,
    Texture,
    NormalMap,
    Material,
    Shader,
    Rig,
}

/// A content-addressed asset identity for the on-demand cache. Two keys are equal iff they
/// would bake to identical bytes, so a cache keyed on this never serves stale or
/// cross-pack data.
#[derive(Debug, Clone, PartialEq, Eq, Hash)]
pub struct AssetKey {
    pub kind: AssetKind,
    /// The content id (e.g. `"mob.wisp"`, `"material.lava"`) or a synthetic id for ad-hoc
    /// bakes (`"seed:0x7001"`).
    pub id: String,
    /// The content pack's hash (its identity on the mesh). Folding this in means a content
    /// swap invalidates every key automatically.
    pub pack_hash: String,
    /// A discriminator for variants of the same id (LOD level, palette, etc.).
    pub variant: u32,
}

impl View for AssetKey {
    type V = (AssetKind, Seq<char>, Seq<char>, u32);

    open spec fn view(&self) -> (AssetKind, Seq<char>, Seq<char>, u32) {
        (self.kind, self.id@, self.pack_hash@, self.variant)
    }
}

impl AssetKey {
    pub fn new(kind: AssetKind, id: &str, pack_hash: &str) -> (r: Self)
        ensures
            r@ == (kind, id@, pack_hash@, 0u32),
    {
        AssetKey { kind, id: id.to_owned(), pack_hash: pack_hash.to_owned(), variant: 0 }
    }

    /// Same key with an explicit variant (LOD / palette).
    pub fn variant(self, v: u32) -> (r: Self)
        ensures
            r == (AssetKey { variant: v, ..self }),
    {
        let mut key = self;
        key.variant = v;
        key
    }

    /// Whether the two keys address the same asset.
    pub fn matches(&self, other: &AssetKey) -> (r: bool)
        ensures
            r == (self@ == other@),
    {
        self.kind == other.kind && self.variant == other.variant && same(
            self.id.as_str(),
            other.id.as_str(),
        ) && same(self.pack_hash.as_str(), other.pack_hash.as_str())
    }
}

/// Two keys address the same asset exactly if they agree in kind, id, pack and variant; a fresh key is
/// of variant zero, and giving it another changes nothing else.
pub proof fn keys_agree_in_all_parts(
    kind: AssetKind,
    id: &str,
    pack_hash: &str,
    a: AssetKey,
    v: u32,
    b: AssetKey,
    other: &AssetKey,
    r: bool,
)
    requires
        call_ensures(AssetKey::new, (kind, id, pack_hash), a),
        call_ensures(AssetKey::variant, (a, v), b),
        call_ensures(AssetKey::matches, (&b, other), r),
    ensures
        a.kind == kind && a.id@ == id@ && a.pack_hash@ == pack_hash@ && a.variant == 0,
        r <==> other.kind == kind && other.id@ == id@ && other.pack_hash@ == pack_hash@
            && other.variant == v,
{
}

} // verus!
