//! [`ContentRegistry`]: the live, indexed, hot-swappable view of a [`ContentPack`].
//!
//! The sim and client hold a registry and resolve content by id every time they need a
//! definition. A new pack is **staged**, then **applied at a tick boundary** so a swap
//! never tears a half-simulated tick. Because lookups go through the registry, the swap
//! is atomic from the simulation's point of view.

use crate::content::ability::AbilityDef;
use crate::content::closed::valid_means_closed;
use crate::content::digest::pack_hash;
use crate::content::error::ContentError;
use crate::content::ids::{AbilityId, ItemId, MaterialId, MobId, ShaderId, SpellId, StatusId};
use crate::content::item::ItemDef;
use crate::content::keyed::{defines, index, indexes, keys, last_of_key, Keyed};
use crate::content::material::{MaterialDef, ShaderDef};
use crate::content::mob::MobDef;
use crate::content::pack::ContentPack;
use crate::content::spell::SpellDef;
use crate::content::status::StatusEffectDef;
use crate::content::triggers::{bucketed, triggers_of_kind, GameTriggerKind, TriggerDef};
use crate::table::NameMap;
use crate::text::{decimal, push_decimal};
use vstd::prelude::*;

verus! {

/// The last definition with the key, or nothing if there is none.
pub open spec fn resolves<T: Keyed>(defs: Seq<T>, key: Seq<char>, r: Option<&T>) -> bool {
    match r {
        Some(d) => exists|i: int|
            #[trigger] last_of_key(defs, i) && defs[i].key() == key && *d == defs[i],
        None => !defines(defs, key),
    }
}

/// A pack staged for the next tick-boundary swap, with its target epoch and its hash.
#[derive(Debug)]
struct Pending {
    epoch: u64,
    hash: String,
    pack: ContentPack,
}

/// Indexed, read-optimized content. Rebuilt from a [`ContentPack`] on every swap.
#[derive(Debug)]
pub struct ContentRegistry {
    /// Monotonic version epoch this registry currently serves.
    pub epoch: u64,
    /// Hash of the active pack (for diagnostics / client-server agreement checks).
    pub active_hash: String,
    /// The active pack with its indexes, and what is staged.
    pub served: Served,
}

/// An indexed pack, and the pack that waits to replace it.
#[derive(Debug)]
pub struct Served {
    pack: ContentPack,
    spells: NameMap<usize>,
    items: NameMap<usize>,
    abilities: NameMap<usize>,
    statuses: NameMap<usize>,
    mobs: NameMap<usize>,
    materials: NameMap<usize>,
    shaders: NameMap<usize>,
    pending: Option<Pending>,
}

/// Finds the definition that the index leads to.
fn look_up<'a, T: Keyed>(defs: &'a Vec<T>, at: &NameMap<usize>, key: &str) -> (r: Option<&'a T>)
    requires
        at.well_formed(),
        indexes(at@, defs@),
    ensures
        resolves(defs@, key@, r),
{
    match at.get(key) {
        Some(i) => {
            assert(last_of_key(defs@, *i as int));
            Some(&defs[*i])
        },
        None => {
            assert(!keys(defs@).contains(key@));
            None
        },
    }
}

/// Why a pack for `epoch` is not taken while `active` is served.
pub open spec fn stale(epoch: u64, active: u64) -> Seq<char> {
    "stale content epoch "@ + decimal(epoch as nat) + " <= active "@ + decimal(active as nat)
}

fn stale_text(epoch: u64, active: u64) -> (r: String)
    ensures
        r@ == stale(epoch, active),
{
    let mut text = "stale content epoch ".to_owned();
    push_decimal(&mut text, epoch);
    text.append(" <= active ");
    push_decimal(&mut text, active);
    text
}

impl ContentRegistry {
    /// The epoch that is served.
    pub open spec fn at_epoch(self) -> u64 {
        self.epoch
    }

    /// The hash of the pack that is served.
    pub open spec fn at_hash(self) -> Seq<char> {
        self.active_hash@
    }

    /// The pack that lookups are answered from.
    pub closed spec fn active(self) -> ContentPack {
        self.served.pack
    }

    /// The pack that waits for the next swap, with its epoch and hash.
    pub closed spec fn staged(self) -> Option<(u64, Seq<char>, ContentPack)> {
        match self.served.pending {
            Some(p) => Some((p.epoch, p.hash@, p.pack)),
            None => None,
        }
    }

    /// The indexes are those of the active pack, the active pack is valid, and what is
    /// staged is valid and of a later epoch.
    pub closed spec fn well_formed(self) -> bool {
        &&& self.served.spells.well_formed() && indexes(self.served.spells@, self.served.pack.spells@)
        &&& self.served.items.well_formed() && indexes(self.served.items@, self.served.pack.items@)
        &&& self.served.abilities.well_formed() && indexes(self.served.abilities@, self.served.pack.abilities@)
        &&& self.served.statuses.well_formed() && indexes(self.served.statuses@, self.served.pack.statuses@)
        &&& self.served.mobs.well_formed() && indexes(self.served.mobs@, self.served.pack.mobs@)
        &&& self.served.materials.well_formed() && indexes(self.served.materials@, self.served.pack.materials@)
        &&& self.served.shaders.well_formed() && indexes(self.served.shaders@, self.served.pack.shaders@)
        &&& self.served.pack.problem() is None
        &&& match self.served.pending {
            Some(p) => p.epoch > self.epoch && p.pack.problem() is None,
            None => true,
        }
    }

    /// What is served is valid, and what is staged is valid and newer.
    pub proof fn serves_valid_content(self)
        requires
            self.well_formed(),
        ensures
            self.active().problem() is None,
            self.staged() matches Some(s) ==> s.0 > self.at_epoch() && s.2.problem() is None,
    {
    }

    fn serving(epoch: u64, hash: String, pack: ContentPack) -> (r: Self)
        requires
            pack.problem() is None,
        ensures
            r.well_formed(),
            r.at_epoch() == epoch,
            r.at_hash() == hash@,
            r.active() == pack,
            r.staged() is None,
    {
        ContentRegistry {
            epoch,
            active_hash: hash,
            served: Served {
                spells: index(&pack.spells),
                items: index(&pack.items),
                abilities: index(&pack.abilities),
                statuses: index(&pack.statuses),
                mobs: index(&pack.mobs),
                materials: index(&pack.materials),
                shaders: index(&pack.shaders),
                pack,
                pending: None,
            },
        }
    }

    /// Build a registry from a pack at `epoch`. Validates and indexes. `encoded` is the
    /// pack's own encoding, which its hash is taken from.
    pub fn new(epoch: u64, pack: ContentPack, encoded: &[u8]) -> (r: Result<Self, ContentError>)
        ensures
            match pack.problem() {
                None => r matches Ok(reg) && reg.well_formed() && reg.at_epoch() == epoch
                    && reg.at_hash() == pack_hash(encoded@) && reg.active() == pack
                    && reg.staged() is None,
                Some(why) => r matches Err(ContentError::Invalid(text)) && text@ == why,
            },
    {
        match pack.validate() {
            Err(e) => Err(e),
            Ok(()) => {
                let hash = ContentPack::hash(encoded);
                Ok(ContentRegistry::serving(epoch, hash, pack))
            },
        }
    }

    /// A registry holding nothing, epoch 0. Safe to query (all lookups miss). `encoded` is
    /// the encoding of the empty pack.
    pub fn bootstrap(encoded: &[u8]) -> (r: Self)
        ensures
            r.well_formed(),
            r.at_epoch() == 0,
            r.at_hash() == pack_hash(encoded@),
            r.active().is_empty(),
            r.active().label@ == "empty"@,
            r.staged() is None,
    {
        let pack = ContentPack::empty();
        proof {
            valid_means_closed(pack);
        }
        ContentRegistry::serving(0, ContentPack::hash(encoded), pack)
    }

    /// Stage a new pack to be applied at the next tick boundary. Validated now so a bad
    /// pack is rejected before it can affect the live sim. The actual swap happens in
    /// [`ContentRegistry::apply_pending`]; until then every lookup is answered as before.
    pub fn stage(&mut self, epoch: u64, pack: ContentPack, encoded: &[u8]) -> (r: Result<
        (),
        ContentError,
    >)
        requires
            old(self).well_formed(),
        ensures
            final(self).well_formed(),
            final(self).at_epoch() == old(self).at_epoch(),
            final(self).at_hash() == old(self).at_hash(),
            final(self).active() == old(self).active(),
            if epoch <= old(self).at_epoch() {
                &&& r matches Err(ContentError::Invalid(text)) && text@ == stale(
                    epoch,
                    old(self).at_epoch(),
                )
                &&& final(self).staged() == old(self).staged()
            } else {
                match pack.problem() {
                    Some(why) => {
                        &&& r matches Err(ContentError::Invalid(text)) && text@ == why
                        &&& final(self).staged() == old(self).staged()
                    },
                    None => {
                        &&& r == Ok::<(), ContentError>(())
                        &&& final(self).staged() == Some((epoch, pack_hash(encoded@), pack))
                    },
                }
            },
    {
        if epoch <= self.epoch {
            return Err(ContentError::Invalid(stale_text(epoch, self.epoch)));
        }
        match pack.validate() {
            Err(e) => Err(e),
            Ok(()) => {
                let hash = ContentPack::hash(encoded);
                self.served.pending = Some(Pending { epoch, hash, pack });
                Ok(())
            },
        }
    }

    /// True if a swap is queued. The tick loop calls this and, at a safe boundary, calls
    /// [`ContentRegistry::apply_pending`].
    pub fn has_pending(&self) -> (r: bool)
        ensures
            r == self.staged() is Some,
    {
        self.served.pending.is_some()
    }

    /// Apply any staged pack. Returns the new epoch if a swap occurred. Called by the
    /// authority/client at a tick boundary so the swap is atomic.
    pub fn apply_pending(&mut self) -> (r: Option<u64>)
        requires
            old(self).well_formed(),
        ensures
            final(self).well_formed(),
            final(self).staged() is None,
            match old(self).staged() {
                Some((epoch, hash, pack)) => {
                    &&& r == Some(epoch)
                    &&& final(self).at_epoch() == epoch
                    &&& final(self).at_epoch() > old(self).at_epoch()
                    &&& final(self).at_hash() == hash
                    &&& final(self).active() == pack
                },
                None => {
                    &&& r is None
                    &&& final(self).at_epoch() == old(self).at_epoch()
                    &&& final(self).at_hash() == old(self).at_hash()
                    &&& final(self).active() == old(self).active()
                },
            },
    {
        match self.served.pending.take() {
            Some(p) => {
                let epoch: u64 = p.epoch;
                *self = ContentRegistry::serving(epoch, p.hash, p.pack);
                Some(epoch)
            },
            None => None,
        }
    }

    pub fn spell(&self, id: &SpellId) -> (r: Option<&SpellDef>)
        requires
            self.well_formed(),
        ensures
            resolves(self.active().spells@, id@, r),
    {
        look_up(&self.served.pack.spells, &self.served.spells, id.as_str())
    }

    pub fn item(&self, id: &ItemId) -> (r: Option<&ItemDef>)
        requires
            self.well_formed(),
        ensures
            resolves(self.active().items@, id@, r),
    {
        look_up(&self.served.pack.items, &self.served.items, id.as_str())
    }

    pub fn ability(&self, id: &AbilityId) -> (r: Option<&AbilityDef>)
        requires
            self.well_formed(),
        ensures
            resolves(self.active().abilities@, id@, r),
    {
        look_up(&self.served.pack.abilities, &self.served.abilities, id.as_str())
    }

    pub fn status(&self, id: &StatusId) -> (r: Option<&StatusEffectDef>)
        requires
            self.well_formed(),
        ensures
            resolves(self.active().statuses@, id@, r),
    {
        look_up(&self.served.pack.statuses, &self.served.statuses, id.as_str())
    }

    pub fn mob(&self, id: &MobId) -> (r: Option<&MobDef>)
        requires
            self.well_formed(),
        ensures
            resolves(self.active().mobs@, id@, r),
    {
        look_up(&self.served.pack.mobs, &self.served.mobs, id.as_str())
    }

    pub fn material(&self, id: &MaterialId) -> (r: Option<&MaterialDef>)
        requires
            self.well_formed(),
        ensures
            resolves(self.active().materials@, id@, r),
    {
        look_up(&self.served.pack.materials, &self.served.materials, id.as_str())
    }

    pub fn shader(&self, id: &ShaderId) -> (r: Option<&ShaderDef>)
        requires
            self.well_formed(),
        ensures
            resolves(self.active().shaders@, id@, r),
    {
        look_up(&self.served.pack.shaders, &self.served.shaders, id.as_str())
    }

    /// The triggers that an event of this kind may fire, in authored order.
    pub fn triggers_for(&self, kind: GameTriggerKind) -> (r: Vec<&TriggerDef>)
        ensures
            r@.len() == bucketed(self.active().triggers@, kind).len(),
            forall|i: int|
                0 <= i < r@.len() ==> *(#[trigger] r@[i]) == bucketed(
                    self.active().triggers@,
                    kind,
                )[i],
    {
        triggers_of_kind(&self.served.pack.triggers, kind)
    }

    /// The whole active pack (for the client to (re)generate procedural assets and
    /// recompile shaders after a swap).
    pub fn pack(&self) -> (r: &ContentPack)
        ensures
            *r == self.active(),
    {
        &self.served.pack
    }
}

/// An id resolves to one definition only.
pub proof fn lookup_is_unique<T: Keyed>(defs: Seq<T>, key: Seq<char>, a: Option<&T>, b: Option<&T>)
    requires
        resolves(defs, key, a),
        resolves(defs, key, b),
    ensures
        a == b,
{
    if a is Some && b is Some {
        let i = choose|i: int|
            #[trigger] last_of_key(defs, i) && defs[i].key() == key && *a->0 == defs[i];
        let j = choose|j: int|
            #[trigger] last_of_key(defs, j) && defs[j].key() == key && *b->0 == defs[j];
        if i < j {
            assert(defs[j].key() != defs[i].key());
        }
        if j < i {
            assert(defs[i].key() != defs[j].key());
        }
    } else if a is Some {
        let i = choose|i: int|
            #[trigger] last_of_key(defs, i) && defs[i].key() == key && *a->0 == defs[i];
        assert(defs[i].key() == key);
    } else if b is Some {
        let j = choose|j: int|
            #[trigger] last_of_key(defs, j) && defs[j].key() == key && *b->0 == defs[j];
        assert(defs[j].key() == key);
    }
}

/// A pack is staged exactly when it is newer than what is served and valid; staging changes nothing
/// that is served, and what was staged is what the next swap serves, once.
pub proof fn what_is_staged_is_served(
    staging: &mut ContentRegistry,
    epoch: u64,
    pack: ContentPack,
    encoded: &[u8],
    taken: Result<(), ContentError>,
    swap: &mut ContentRegistry,
    swapped: Option<u64>,
    again: &mut ContentRegistry,
    reswapped: Option<u64>,
)
    requires
        call_ensures(ContentRegistry::stage, (staging, epoch, pack, encoded), taken),
        *old(swap) == *final(staging),
        call_ensures(ContentRegistry::apply_pending, (swap,), swapped),
        *old(again) == *final(swap),
        call_ensures(ContentRegistry::apply_pending, (again,), reswapped),
    ensures
        taken is Ok <==> epoch > old(staging).epoch && pack.problem() is None,
        final(staging).epoch == old(staging).epoch,
        final(staging).active_hash@ == old(staging).active_hash@,
        final(staging).active() == old(staging).active(),
        taken is Ok ==> {
            &&& swapped == Some(epoch)
            &&& final(swap).epoch == epoch
            &&& final(swap).active_hash@ == pack_hash(encoded@)
            &&& final(swap).active() == pack
        },
        taken is Err && old(staging).staged() is None ==> {
            &&& swapped is None
            &&& final(swap).active() == old(staging).active()
            &&& final(swap).epoch == old(staging).epoch
        },
        final(swap).epoch >= old(staging).epoch || swapped is None,
        reswapped is None,
        final(again).active() == final(swap).active(),
        final(again).epoch == final(swap).epoch,
{
}

/// Of two packs staged before one swap, the later is served.
pub proof fn the_last_staged_pack_wins(
    first: &mut ContentRegistry,
    a: (u64, ContentPack),
    a_encoded: &[u8],
    second: &mut ContentRegistry,
    b: (u64, ContentPack),
    b_encoded: &[u8],
    swap: &mut ContentRegistry,
    swapped: Option<u64>,
)
    requires
        call_ensures(ContentRegistry::stage, (first, a.0, a.1, a_encoded), Ok(())),
        *old(second) == *final(first),
        call_ensures(ContentRegistry::stage, (second, b.0, b.1, b_encoded), Ok(())),
        *old(swap) == *final(second),
        call_ensures(ContentRegistry::apply_pending, (swap,), swapped),
    ensures
        swapped == Some(b.0),
        final(swap).active() == b.1,
{
}

/// A registry built from a pack resolves a spell id to the last definition of that id in the pack,
/// and misses only where the pack has none.
pub proof fn spells_are_resolved_by_id(
    epoch: u64,
    pack: ContentPack,
    encoded: &[u8],
    registry: ContentRegistry,
    id: &SpellId,
    r: Option<&SpellDef>,
    k: int,
)
    requires
        call_ensures(ContentRegistry::new, (epoch, pack, encoded), Ok(registry)),
        call_ensures(ContentRegistry::spell, (&registry, id), r),
    ensures
        r matches Some(def) ==> def.id@ == id@ && pack.spells@.contains(*def),
        0 <= k < pack.spells@.len() && pack.spells@[k].id@ == id@ ==> r is Some,
        0 <= k < pack.spells@.len() && pack.spells@[k].id@ == id@ && (forall|later: int|
            k < later < pack.spells@.len() ==> (#[trigger] pack.spells@[later]).id@ != id@) ==> r == Some(
            &pack.spells@[k],
        ),
{
    assert(pack.problem() is None);
    let defs = pack.spells@;
    if r is Some {
        let i = choose|i: int|
            #[trigger] last_of_key(defs, i) && defs[i].key() == id@ && *r->0 == defs[i];
        assert(defs[i].id@ == id@);
        if 0 <= k < defs.len() && defs[k].id@ == id@ && (forall|later: int|
            k < later < defs.len() ==> (#[trigger] defs[later]).id@ != id@) {
            assert(defs[k].key() == id@);
            if i < k {
                assert(defs[k].key() != defs[i].key());
            }
        }
    } else if 0 <= k < defs.len() && defs[k].id@ == id@ {
        assert(defs[k].key() == id@);
    }
}

/// A registry built from a pack resolves an item id to the last definition of that id in the pack,
/// and misses only where the pack has none.
pub proof fn items_are_resolved_by_id(
    epoch: u64,
    pack: ContentPack,
    encoded: &[u8],
    registry: ContentRegistry,
    id: &ItemId,
    r: Option<&ItemDef>,
    k: int,
)
    requires
        call_ensures(ContentRegistry::new, (epoch, pack, encoded), Ok(registry)),
        call_ensures(ContentRegistry::item, (&registry, id), r),
    ensures
        r matches Some(def) ==> def.id@ == id@ && pack.items@.contains(*def),
        0 <= k < pack.items@.len() && pack.items@[k].id@ == id@ ==> r is Some,
        0 <= k < pack.items@.len() && pack.items@[k].id@ == id@ && (forall|later: int|
            k < later < pack.items@.len() ==> (#[trigger] pack.items@[later]).id@ != id@) ==> r == Some(
            &pack.items@[k],
        ),
{
    assert(pack.problem() is None);
    let defs = pack.items@;
    if r is Some {
        let i = choose|i: int|
            #[trigger] last_of_key(defs, i) && defs[i].key() == id@ && *r->0 == defs[i];
        assert(defs[i].id@ == id@);
        if 0 <= k < defs.len() && defs[k].id@ == id@ && (forall|later: int|
            k < later < defs.len() ==> (#[trigger] defs[later]).id@ != id@) {
            assert(defs[k].key() == id@);
            if i < k {
                assert(defs[k].key() != defs[i].key());
            }
        }
    } else if 0 <= k < defs.len() && defs[k].id@ == id@ {
        assert(defs[k].key() == id@);
    }
}

/// A registry built from a pack resolves an ability id to the last definition of that id in the pack,
/// and misses only where the pack has none.
pub proof fn abilities_are_resolved_by_id(
    epoch: u64,
    pack: ContentPack,
    encoded: &[u8],
    registry: ContentRegistry,
    id: &AbilityId,
    r: Option<&AbilityDef>,
    k: int,
)
    requires
        call_ensures(ContentRegistry::new, (epoch, pack, encoded), Ok(registry)),
        call_ensures(ContentRegistry::ability, (&registry, id), r),
    ensures
        r matches Some(def) ==> def.id@ == id@ && pack.abilities@.contains(*def),
        0 <= k < pack.abilities@.len() && pack.abilities@[k].id@ == id@ ==> r is Some,
        0 <= k < pack.abilities@.len() && pack.abilities@[k].id@ == id@ && (forall|later: int|
            k < later < pack.abilities@.len() ==> (#[trigger] pack.abilities@[later]).id@ != id@) ==> r == Some(
            &pack.abilities@[k],
        ),
{
    assert(pack.problem() is None);
    let defs = pack.abilities@;
    if r is Some {
        let i = choose|i: int|
            #[trigger] last_of_key(defs, i) && defs[i].key() == id@ && *r->0 == defs[i];
        assert(defs[i].id@ == id@);
        if 0 <= k < defs.len() && defs[k].id@ == id@ && (forall|later: int|
            k < later < defs.len() ==> (#[trigger] defs[later]).id@ != id@) {
            assert(defs[k].key() == id@);
            if i < k {
                assert(defs[k].key() != defs[i].key());
            }
        }
    } else if 0 <= k < defs.len() && defs[k].id@ == id@ {
        assert(defs[k].key() == id@);
    }
}

/// A registry built from a pack resolves a status id to the last definition of that id in the pack,
/// and misses only where the pack has none.
pub proof fn statuses_are_resolved_by_id(
    epoch: u64,
    pack: ContentPack,
    encoded: &[u8],
    registry: ContentRegistry,
    id: &StatusId,
    r: Option<&StatusEffectDef>,
    k: int,
)
    requires
        call_ensures(ContentRegistry::new, (epoch, pack, encoded), Ok(registry)),
        call_ensures(ContentRegistry::status, (&registry, id), r),
    ensures
        r matches Some(def) ==> def.id@ == id@ && pack.statuses@.contains(*def),
        0 <= k < pack.statuses@.len() && pack.statuses@[k].id@ == id@ ==> r is Some,
        0 <= k < pack.statuses@.len() && pack.statuses@[k].id@ == id@ && (forall|later: int|
            k < later < pack.statuses@.len() ==> (#[trigger] pack.statuses@[later]).id@ != id@) ==> r == Some(
            &pack.statuses@[k],
        ),
{
    assert(pack.problem() is None);
    let defs = pack.statuses@;
    if r is Some {
        let i = choose|i: int|
            #[trigger] last_of_key(defs, i) && defs[i].key() == id@ && *r->0 == defs[i];
        assert(defs[i].id@ == id@);
        if 0 <= k < defs.len() && defs[k].id@ == id@ && (forall|later: int|
            k < later < defs.len() ==> (#[trigger] defs[later]).id@ != id@) {
            assert(defs[k].key() == id@);
            if i < k {
                assert(defs[k].key() != defs[i].key());
            }
        }
    } else if 0 <= k < defs.len() && defs[k].id@ == id@ {
        assert(defs[k].key() == id@);
    }
}

/// A registry built from a pack resolves a mob id to the last definition of that id in the pack,
/// and misses only where the pack has none.
pub proof fn mobs_are_resolved_by_id(
    epoch: u64,
    pack: ContentPack,
    encoded: &[u8],
    registry: ContentRegistry,
    id: &MobId,
    r: Option<&MobDef>,
    k: int,
)
    requires
        call_ensures(ContentRegistry::new, (epoch, pack, encoded), Ok(registry)),
        call_ensures(ContentRegistry::mob, (&registry, id), r),
    ensures
        r matches Some(def) ==> def.id@ == id@ && pack.mobs@.contains(*def),
        0 <= k < pack.mobs@.len() && pack.mobs@[k].id@ == id@ ==> r is Some,
        0 <= k < pack.mobs@.len() && pack.mobs@[k].id@ == id@ && (forall|later: int|
            k < later < pack.mobs@.len() ==> (#[trigger] pack.mobs@[later]).id@ != id@) ==> r == Some(
            &pack.mobs@[k],
        ),
{
    assert(pack.problem() is None);
    let defs = pack.mobs@;
    if r is Some {
        let i = choose|i: int|
            #[trigger] last_of_key(defs, i) && defs[i].key() == id@ && *r->0 == defs[i];
        assert(defs[i].id@ == id@);
        if 0 <= k < defs.len() && defs[k].id@ == id@ && (forall|later: int|
            k < later < defs.len() ==> (#[trigger] defs[later]).id@ != id@) {
            assert(defs[k].key() == id@);
            if i < k {
                assert(defs[k].key() != defs[i].key());
            }
        }
    } else if 0 <= k < defs.len() && defs[k].id@ == id@ {
        assert(defs[k].key() == id@);
    }
}

/// A registry built from a pack resolves a material id to the last definition of that id in the pack,
/// and misses only where the pack has none.
pub proof fn materials_are_resolved_by_id(
    epoch: u64,
    pack: ContentPack,
    encoded: &[u8],
    registry: ContentRegistry,
    id: &MaterialId,
    r: Option<&MaterialDef>,
    k: int,
)
    requires
        call_ensures(ContentRegistry::new, (epoch, pack, encoded), Ok(registry)),
        call_ensures(ContentRegistry::material, (&registry, id), r),
    ensures
        r matches Some(def) ==> def.id@ == id@ && pack.materials@.contains(*def),
        0 <= k < pack.materials@.len() && pack.materials@[k].id@ == id@ ==> r is Some,
        0 <= k < pack.materials@.len() && pack.materials@[k].id@ == id@ && (forall|later: int|
            k < later < pack.materials@.len() ==> (#[trigger] pack.materials@[later]).id@ != id@) ==> r == Some(
            &pack.materials@[k],
        ),
{
    assert(pack.problem() is None);
    let defs = pack.materials@;
    if r is Some {
        let i = choose|i: int|
            #[trigger] last_of_key(defs, i) && defs[i].key() == id@ && *r->0 == defs[i];
        assert(defs[i].id@ == id@);
        if 0 <= k < defs.len() && defs[k].id@ == id@ && (forall|later: int|
            k < later < defs.len() ==> (#[trigger] defs[later]).id@ != id@) {
            assert(defs[k].key() == id@);
            if i < k {
                assert(defs[k].key() != defs[i].key());
            }
        }
    } else if 0 <= k < defs.len() && defs[k].id@ == id@ {
        assert(defs[k].key() == id@);
    }
}

/// A registry built from a pack resolves a shader id to the last definition of that id in the pack,
/// and misses only where the pack has none.
pub proof fn shaders_are_resolved_by_id(
    epoch: u64,
    pack: ContentPack,
    encoded: &[u8],
    registry: ContentRegistry,
    id: &ShaderId,
    r: Option<&ShaderDef>,
    k: int,
)
    requires
        call_ensures(ContentRegistry::new, (epoch, pack, encoded), Ok(registry)),
        call_ensures(ContentRegistry::shader, (&registry, id), r),
    ensures
        r matches Some(def) ==> def.id@ == id@ && pack.shaders@.contains(*def),
        0 <= k < pack.shaders@.len() && pack.shaders@[k].id@ == id@ ==> r is Some,
        0 <= k < pack.shaders@.len() && pack.shaders@[k].id@ == id@ && (forall|later: int|
            k < later < pack.shaders@.len() ==> (#[trigger] pack.shaders@[later]).id@ != id@) ==> r == Some(
            &pack.shaders@[k],
        ),
{
    assert(pack.problem() is None);
    let defs = pack.shaders@;
    if r is Some {
        let i = choose|i: int|
            #[trigger] last_of_key(defs, i) && defs[i].key() == id@ && *r->0 == defs[i];
        assert(defs[i].id@ == id@);
        if 0 <= k < defs.len() && defs[k].id@ == id@ && (forall|later: int|
            k < later < defs.len() ==> (#[trigger] defs[later]).id@ != id@) {
            assert(defs[k].key() == id@);
            if i < k {
                assert(defs[k].key() != defs[i].key());
            }
        }
    } else if 0 <= k < defs.len() && defs[k].id@ == id@ {
        assert(defs[k].key() == id@);
    }
}

/// A registry that was only set up resolves nothing, fires nothing and waits for the first epoch.
pub proof fn a_fresh_registry_knows_nothing(
    encoded: &[u8],
    registry: ContentRegistry,
    spell: (&SpellId, Option<&SpellDef>),
    item: (&ItemId, Option<&ItemDef>),
    ability: (&AbilityId, Option<&AbilityDef>),
    status: (&StatusId, Option<&StatusEffectDef>),
    mob: (&MobId, Option<&MobDef>),
    material: (&MaterialId, Option<&MaterialDef>),
    shader: (&ShaderId, Option<&ShaderDef>),
    kind: GameTriggerKind,
    fired: Vec<&TriggerDef>,
)
    requires
        call_ensures(ContentRegistry::bootstrap, (encoded,), registry),
        call_ensures(ContentRegistry::spell, (&registry, spell.0), spell.1),
        call_ensures(ContentRegistry::item, (&registry, item.0), item.1),
        call_ensures(ContentRegistry::ability, (&registry, ability.0), ability.1),
        call_ensures(ContentRegistry::status, (&registry, status.0), status.1),
        call_ensures(ContentRegistry::mob, (&registry, mob.0), mob.1),
        call_ensures(ContentRegistry::material, (&registry, material.0), material.1),
        call_ensures(ContentRegistry::shader, (&registry, shader.0), shader.1),
        call_ensures(ContentRegistry::triggers_for, (&registry, kind), fired),
    ensures
        registry.epoch == 0,
        spell.1 is None,
        item.1 is None,
        ability.1 is None,
        status.1 is None,
        mob.1 is None,
        material.1 is None,
        shader.1 is None,
        fired@.len() == 0,
{
    assert(bucketed(registry.active().triggers@, kind).len() == 0);
}

} // verus!
