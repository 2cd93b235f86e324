//! The [`AssetServer`]: holds the live [`AssetBundle`] and manages the **hot-reload swap**.
//! It is the single object the renderer talks to.
//!
//! When a new content pack arrives, the client bakes a fresh bundle off the hot path and
//! [`AssetServer::stage`]s it; at a safe boundary (between frames) it calls
//! [`AssetServer::apply_staged`], and every subsequent lookup resolves against the new
//! assets. Because handles are bundle-local, the renderer just re-uploads on a generation
//! bump — there is no partial, torn asset state.
//!
//! An [`AdHocCache`] is provided for meshes that aren't part of a pack (one-off
//! projectile/VFX shapes generated from a seed), keyed content-addressably so repeated
//! requests reuse the bake.

use crate::assets::bundle::{AssetBundle, ItemVisual, MobVisual};
use crate::assets::handle::{AssetKey, AssetKind};
use crate::assets::render_asset::SkinnedMesh;
use crate::text::same;
use vstd::prelude::*;

verus! {

/// A tiny content-addressed cache for meshes outside any pack. Keys fold in the pack hash,
/// so a content swap (which clears this cache) can never serve stale geometry.
#[derive(Debug)]
pub struct AdHocCache {
    pub meshes: Vec<(AssetKey, SkinnedMesh)>,
}

/// What an asset key addresses.
pub type Address = (AssetKind, Seq<char>, Seq<char>, u32);

impl AdHocCache {
    /// No two entries have the same key.
    pub open spec fn well_formed(self) -> bool {
        forall|i: int, j: int|
            0 <= i < j < self.meshes@.len() ==> (#[trigger] self.meshes@[i]).0@ != (
            #[trigger] self.meshes@[j]).0@
    }

    /// Whether a mesh is cached under the key.
    pub open spec fn holds(self, key: Address) -> bool {
        exists|i: int| 0 <= i < self.meshes@.len() && #[trigger] self.meshes@[i].0@ == key
    }

    /// Whether this mesh is cached under the key.
    pub open spec fn has(self, key: Address, mesh: SkinnedMesh) -> bool {
        exists|i: int|
            0 <= i < self.meshes@.len() && #[trigger] self.meshes@[i].0@ == key
                && self.meshes@[i].1 == mesh
    }

    /// Fetch the cached mesh for `key`, baking and inserting it on a miss.
    pub fn get_or_insert_with<F: FnOnce() -> SkinnedMesh>(&mut self, key: AssetKey, bake: F) -> (r:
        &SkinnedMesh)
        requires
            old(self).well_formed(),
            call_requires(bake, ()),
        ensures
            final(self).well_formed(),
            if old(self).holds(key@) {
                &&& *final(self) == *old(self)
                &&& old(self).has(key@, *r)
            } else {
                &&& final(self).meshes@ == old(self).meshes@.push((key, *r))
                &&& call_ensures(bake, (), *r)
            },
    {
        let mut i: usize = 0;
        let ghost was = *self;
        while i < self.meshes.len()
            invariant
                i <= self.meshes.len(),
                *self == was,
                was.well_formed(),
                forall|k: int| 0 <= k < i ==> (#[trigger] self.meshes@[k]).0@ != key@,
            decreases self.meshes.len() - i,
        {
            if self.meshes[i].0.matches(&key) {
                assert(was.meshes@[i as int].0@ == key@);
                return &self.meshes[i].1;
            }
            i = i + 1;
        }
        let mesh = bake();
        self.meshes.push((key, mesh));
        let last: usize = self.meshes.len() - 1;
        &self.meshes[last].1
    }

    /// Drop everything (called on a content swap).
    pub fn clear(&mut self)
        ensures
            final(self).meshes@.len() == 0,
            final(self).well_formed(),
    {
        self.meshes.clear();
    }

    pub fn len(&self) -> (r: usize)
        ensures
            r == self.meshes@.len(),
    {
        self.meshes.len()
    }

    pub fn is_empty(&self) -> (r: bool)
        ensures
            r == (self.meshes@.len() == 0),
    {
        self.meshes.len() == 0
    }
}

impl Default for AdHocCache {
    fn default() -> (r: Self)
        ensures
            r.meshes@.len() == 0,
            r.well_formed(),
    {
        AdHocCache { meshes: Vec::new() }
    }
}

/// Owns the active asset bundle and a staged replacement for hot-reload.
#[derive(Debug)]
pub struct AssetServer {
    pub active: AssetBundle,
    pub staged: Option<AssetBundle>,
    /// Bumped every time the active bundle is replaced, so the renderer knows to re-upload
    /// its GPU mirror of the assets.
    pub generation: u64,
    pub adhoc: AdHocCache,
}

impl AssetServer {
    /// The bundles' handles lead to assets, and what is staged differs from what is active.
    pub open spec fn well_formed(self) -> bool {
        &&& self.active.well_formed()
        &&& self.adhoc.well_formed()
        &&& self.staged matches Some(b) ==> b.well_formed() && b.pack_hash@ != self.active.pack_hash@
    }

    /// Create a server around an initial bundle.
    pub fn new(initial: AssetBundle) -> (r: Self)
        requires
            initial.well_formed(),
        ensures
            r.well_formed(),
            r.active == initial,
            r.staged is None,
            r.generation == 0,
            r.adhoc.meshes@.len() == 0,
    {
        AssetServer { active: initial, staged: None, generation: 0, adhoc: AdHocCache::default() }
    }

    /// The live bundle (the draw-time lookup surface).
    pub fn bundle(&self) -> (r: &AssetBundle)
        ensures
            *r == self.active,
    {
        &self.active
    }

    /// The pack hash currently in effect.
    pub fn pack_hash(&self) -> (r: &str)
        ensures
            r@ == self.active.pack_hash@,
    {
        self.active.pack_hash.as_str()
    }

    /// Generation counter — changes exactly when the active bundle is swapped, so the
    /// renderer can lazily re-upload only when it differs from what it last saw.
    pub fn generation(&self) -> (r: u64)
        ensures
            r == self.generation,
    {
        self.generation
    }

    /// Stage a freshly-baked bundle to become active at the next
    /// [`AssetServer::apply_staged`]. If it matches the active pack hash, drop it (nothing
    /// changed). Baking happens off this call; staging is just a hand-off.
    pub fn stage(&mut self, bundle: AssetBundle)
        requires
            old(self).well_formed(),
            bundle.well_formed(),
        ensures
            final(self).well_formed(),
            *final(self) == if bundle.pack_hash@ == old(self).active.pack_hash@ {
                *old(self)
            } else {
                AssetServer { staged: Some(bundle), ..*old(self) }
            },
    {
        if same(bundle.pack_hash.as_str(), self.active.pack_hash.as_str()) {
            return;
        }
        self.staged = Some(bundle);
    }

    /// True if a different bundle is waiting to go live.
    pub fn has_staged(&self) -> (r: bool)
        ensures
            r == (self.staged is Some),
    {
        self.staged.is_some()
    }

    /// Promote the staged bundle to active (call between frames). Returns the new generation
    /// if a swap happened, else `None`. The ad-hoc cache is cleared because its keys fold in
    /// the (now-stale) pack hash.
    pub fn apply_staged(&mut self) -> (r: Option<u64>)
        requires
            old(self).well_formed(),
            old(self).generation < u64::MAX,
        ensures
            final(self).well_formed(),
            match old(self).staged {
                Some(next) => {
                    &&& r == Some(final(self).generation)
                    &&& final(self).generation == old(self).generation + 1
                    &&& final(self).active == next
                    &&& final(self).staged is None
                    &&& final(self).adhoc.meshes@.len() == 0
                },
                None => {
                    &&& r is None
                    &&& *final(self) == *old(self)
                },
            },
    {
        match self.staged.take() {
            Some(next) => {
                self.active = next;
                self.generation = self.generation + 1;
                self.adhoc.clear();
                Some(self.generation)
            },
            None => None,
        }
    }

    /// Draw set for a creature (see [`AssetBundle::mob_visual`]).
    pub fn mob_visual(&self, mob_id: &str) -> (r: Option<MobVisual>)
        requires
            self.well_formed(),
        ensures
            if self.active.mob_by_id@.contains_key(mob_id@) {
                r == Some(self.active.mob_visuals@[self.active.mob_by_id@[mob_id@] as int])
            } else {
                r is None
            },
    {
        self.active.mob_visual(mob_id)
    }

    /// Draw set for an item (see [`AssetBundle::item_visual`]).
    pub fn item_visual(&self, item_id: &str) -> (r: Option<ItemVisual>)
        requires
            self.well_formed(),
        ensures
            if self.active.item_by_id@.contains_key(item_id@) {
                r == Some(self.active.item_visuals@[self.active.item_by_id@[item_id@] as int])
            } else {
                r is None
            },
    {
        self.active.item_visual(item_id)
    }

    /// Get (or lazily bake + cache) an ad-hoc mesh from a generator, keyed
    /// content-addressably. For projectile/VFX shapes that aren't pack assets.
    pub fn adhoc_mesh<F: FnOnce() -> SkinnedMesh>(&mut self, key: AssetKey, bake: F) -> (r:
        &SkinnedMesh)
        requires
            old(self).well_formed(),
            call_requires(bake, ()),
        ensures
            final(self).well_formed(),
            *final(self) == (AssetServer { adhoc: final(self).adhoc, ..*old(self) }),
            if old(self).adhoc.holds(key@) {
                &&& final(self).adhoc == old(self).adhoc
                &&& old(self).adhoc.has(key@, *r)
            } else {
                &&& final(self).adhoc.meshes@ == old(self).adhoc.meshes@.push((key, *r))
                &&& call_ensures(bake, (), *r)
            },
    {
        self.adhoc.get_or_insert_with(key, bake)
    }
}

/// A key that has been asked for once is served from the cache ever after: asking again
/// adds nothing.
pub proof fn a_mesh_is_baked_once(before: AdHocCache, key: AssetKey, mesh: SkinnedMesh, after: AdHocCache)
    requires
        before.well_formed(),
        !before.holds(key@),
        after.meshes@ == before.meshes@.push((key, mesh)),
    ensures
        after.holds(key@),
        after.has(key@, mesh),
        forall|other: SkinnedMesh| #[trigger] after.has(key@, other) ==> other == mesh,
{
    let at = before.meshes@.len() as int;
    assert(after.meshes@[at].0@ == key@);
    assert forall|other: SkinnedMesh| #[trigger] after.has(key@, other) implies other == mesh by {
        let i = choose|i: int|
            0 <= i < after.meshes@.len() && #[trigger] after.meshes@[i].0@ == key@
                && after.meshes@[i].1 == other;
        if i < at {
            assert(before.meshes@[i].0@ == key@);
        }
    }
}

/// A staged bundle goes live at the next swap and no earlier: staging leaves what is drawn alone, the
/// swap makes the bundle active, counts one generation up and forgets the ad-hoc meshes, and a second
/// swap does nothing.
pub proof fn what_is_staged_goes_live(
    staging: &mut AssetServer,
    bundle: AssetBundle,
    swap: &mut AssetServer,
    swapped: Option<u64>,
    again: &mut AssetServer,
    reswapped: Option<u64>,
)
    requires
        call_ensures(AssetServer::stage, (staging, bundle), ()),
        bundle.pack_hash@ != old(staging).active.pack_hash@,
        *old(swap) == *final(staging),
        call_ensures(AssetServer::apply_staged, (swap,), swapped),
        *old(again) == *final(swap),
        call_ensures(AssetServer::apply_staged, (again,), reswapped),
    ensures
        final(staging).active == old(staging).active,
        final(staging).generation == old(staging).generation,
        final(staging).adhoc == old(staging).adhoc,
        final(swap).active == bundle,
        final(swap).generation == old(staging).generation + 1,
        swapped == Some(final(swap).generation),
        final(swap).adhoc.meshes@.len() == 0,
        reswapped is None,
        *final(again) == *final(swap),
{
}

/// Staging what is already live changes nothing.
pub proof fn staging_the_same_pack_is_nothing(staging: &mut AssetServer, bundle: AssetBundle)
    requires
        call_ensures(AssetServer::stage, (staging, bundle), ()),
        bundle.pack_hash@ == old(staging).active.pack_hash@,
    ensures
        *final(staging) == *old(staging),
{
}

/// An ad-hoc mesh that is asked for twice is the same mesh both times, whatever the second generator
/// would have made; the second time nothing is added. What is baked is kept under its own key only.
pub proof fn asking_twice_gives_one_mesh<F: FnOnce() -> SkinnedMesh, G: FnOnce() -> SkinnedMesh>(
    first: &mut AssetServer,
    key: AssetKey,
    bake: F,
    mesh: &SkinnedMesh,
    second: &mut AssetServer,
    same_key: AssetKey,
    rebake: G,
    other: &SkinnedMesh,
)
    requires
        old(first).well_formed(),
        call_ensures(AssetServer::adhoc_mesh::<F>, (first, key, bake), mesh),
        *old(second) == *final(first),
        same_key.kind == key.kind,
        same_key.id@ == key.id@,
        same_key.pack_hash@ == key.pack_hash@,
        same_key.variant == key.variant,
        call_ensures(AssetServer::adhoc_mesh::<G>, (second, same_key, rebake), other),
    ensures
        *other == *mesh,
        *final(second) == *final(first),
        old(first).adhoc.meshes@.len() == 0 ==> call_ensures(bake, (), *mesh)
            && final(first).adhoc.meshes@.len() == 1,
        final(first).active == old(first).active,
        final(first).staged == old(first).staged,
        final(first).generation == old(first).generation,
{
    let (was, cache) = (old(first).adhoc, final(first).adhoc);
    assert(same_key@ == key@);
    if was.holds(key@) {
        assert(was.has(key@, *mesh));
        assert(was.has(key@, *other));
    } else {
        a_mesh_is_baked_once(was, key, *mesh, cache);
        assert(cache.has(key@, *other));
    }
}

/// Keys that differ in kind, id, pack or variant have meshes of their own.
pub proof fn each_key_has_its_own_mesh<F: FnOnce() -> SkinnedMesh, G: FnOnce() -> SkinnedMesh>(
    first: &mut AssetServer,
    key: AssetKey,
    bake: F,
    mesh: &SkinnedMesh,
    second: &mut AssetServer,
    other_key: AssetKey,
    rebake: G,
    other: &SkinnedMesh,
)
    requires
        old(first).well_formed(),
        old(first).adhoc.meshes@.len() == 0,
        call_ensures(AssetServer::adhoc_mesh::<F>, (first, key, bake), mesh),
        *old(second) == *final(first),
        other_key.kind != key.kind || other_key.id@ != key.id@ || other_key.pack_hash@
            != key.pack_hash@ || other_key.variant != key.variant,
        call_ensures(AssetServer::adhoc_mesh::<G>, (second, other_key, rebake), other),
    ensures
        call_ensures(bake, (), *mesh),
        call_ensures(rebake, (), *other),
        final(second).adhoc.meshes@.len() == 2,
{
    assert(other_key@ != key@);
    assert(!final(first).adhoc.holds(other_key@));
}

} // verus!
