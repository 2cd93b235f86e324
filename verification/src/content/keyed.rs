//! What is found by name: the key of a definition, and an index over a list of them.

use crate::content::ability::AbilityDef;
use crate::content::ids::{AbilityId, ItemId};
use crate::content::item::ItemDef;
use crate::content::loot::{LootEntry, LootTableDef};
use crate::content::material::{MaterialDef, ShaderDef};
use crate::content::mob::MobDef;
use crate::content::spell::SpellDef;
use crate::content::status::StatusEffectDef;
use crate::content::tech::TechNode;
use crate::table::NameMap;
use vstd::prelude::*;

verus! {

/// Something that carries a name: a definition its own, a reference that of its target.
pub trait Keyed {
    spec fn key(&self) -> Seq<char>;

    fn name(&self) -> (r: &str)
        ensures
            r@ == self.key(),
    ;
}

/// Whether some entry of the list has this key.
pub open spec fn defines<T: Keyed>(defs: Seq<T>, key: Seq<char>) -> bool {
    exists|i: int| 0 <= i < defs.len() && #[trigger] defs[i].key() == key
}

/// The keys of the list.
pub open spec fn keys<T: Keyed>(defs: Seq<T>) -> Set<Seq<char>> {
    Set::new(|k: Seq<char>| defines(defs, k))
}

/// Whether the entry at `i` is the last one with its key.
pub open spec fn last_of_key<T: Keyed>(defs: Seq<T>, i: int) -> bool {
    &&& 0 <= i < defs.len()
    &&& forall|j: int| i < j < defs.len() ==> #[trigger] defs[j].key() != defs[i].key()
}

/// The map takes each key of the list to the last entry that has it, and nothing else.
pub open spec fn indexes<T: Keyed>(m: Map<Seq<char>, usize>, defs: Seq<T>) -> bool {
    &&& m.dom() == keys(defs)
    &&& forall|k: Seq<char>| #[trigger]
        m.contains_key(k) ==> last_of_key(defs, m[k] as int) && defs[m[k] as int].key() == k
}

/// Indexes the list by key; of several entries with one key, the last is found.
pub fn index<T: Keyed>(defs: &Vec<T>) -> (r: NameMap<usize>)
    ensures
        r.well_formed(),
        indexes(r@, defs@),
{
    let mut out: NameMap<usize> = NameMap::new();
    let mut i: usize = 0;
    assert(out@.dom() =~= keys(defs@.take(0)));
    while i < defs.len()
        invariant
            i <= defs.len(),
            out.well_formed(),
            indexes(out@, defs@.take(i as int)),
        decreases defs.len() - i,
    {
        let ghost was = out@;
        let ghost done = defs@.take(i as int);
        let ghost next = defs@.take(i + 1);
        let ghost here = defs@[i as int].key();
        out.insert(defs[i].name().to_owned(), i);
        proof {
            assert(next[i as int].key() == here);
            assert forall|k: Seq<char>| out@.contains_key(k) <==> defines(next, k) by {
                if defines(done, k) {
                    let j = choose|j: int| 0 <= j < done.len() && #[trigger] done[j].key() == k;
                    assert(next[j].key() == k);
                }
                if defines(next, k) && k != here {
                    let j = choose|j: int| 0 <= j < next.len() && #[trigger] next[j].key() == k;
                    assert(done[j].key() == k);
                }
                assert(was.contains_key(k) <==> keys(done).contains(k));
            }
            assert(out@.dom() =~= keys(next));
            assert forall|k: Seq<char>| #[trigger] out@.contains_key(k) implies last_of_key(
                next,
                out@[k] as int,
            ) && next[out@[k] as int].key() == k by {
                if k != here {
                    assert(was.contains_key(k));
                    assert forall|j: int| out@[k] < j < next.len() implies #[trigger] next[j].key()
                        != next[out@[k] as int].key() by {
                        if j < i {
                            assert(done[j].key() == next[j].key());
                        }
                    }
                }
            }
        }
        i = i + 1;
    }
    assert(defs@.take(defs.len() as int) =~= defs@);
    out
}

impl Keyed for String {
    open spec fn key(&self) -> Seq<char> {
        self@
    }

    fn name(&self) -> (r: &str) {
        self.as_str()
    }
}

impl Keyed for AbilityId {
    open spec fn key(&self) -> Seq<char> {
        self@
    }

    fn name(&self) -> (r: &str) {
        self.as_str()
    }
}

impl Keyed for ItemId {
    open spec fn key(&self) -> Seq<char> {
        self@
    }

    fn name(&self) -> (r: &str) {
        self.as_str()
    }
}

impl Keyed for (ItemId, u16) {
    open spec fn key(&self) -> Seq<char> {
        self.0@
    }

    fn name(&self) -> (r: &str) {
        self.0.as_str()
    }
}

impl Keyed for LootEntry {
    open spec fn key(&self) -> Seq<char> {
        self.item@
    }

    fn name(&self) -> (r: &str) {
        self.item.as_str()
    }
}

impl Keyed for SpellDef {
    open spec fn key(&self) -> Seq<char> {
        self.id@
    }

    fn name(&self) -> (r: &str) {
        self.id.as_str()
    }
}

impl Keyed for ItemDef {
    open spec fn key(&self) -> Seq<char> {
        self.id@
    }

    fn name(&self) -> (r: &str) {
        self.id.as_str()
    }
}

impl Keyed for AbilityDef {
    open spec fn key(&self) -> Seq<char> {
        self.id@
    }

    fn name(&self) -> (r: &str) {
        self.id.as_str()
    }
}

impl Keyed for StatusEffectDef {
    open spec fn key(&self) -> Seq<char> {
        self.id@
    }

    fn name(&self) -> (r: &str) {
        self.id.as_str()
    }
}

impl Keyed for MobDef {
    open spec fn key(&self) -> Seq<char> {
        self.id@
    }

    fn name(&self) -> (r: &str) {
        self.id.as_str()
    }
}

impl Keyed for MaterialDef {
    open spec fn key(&self) -> Seq<char> {
        self.id@
    }

    fn name(&self) -> (r: &str) {
        self.id.as_str()
    }
}

impl Keyed for ShaderDef {
    open spec fn key(&self) -> Seq<char> {
        self.id@
    }

    fn name(&self) -> (r: &str) {
        self.id.as_str()
    }
}

impl Keyed for TechNode {
    open spec fn key(&self) -> Seq<char> {
        self.id@
    }

    fn name(&self) -> (r: &str) {
        self.id.as_str()
    }
}

impl Keyed for LootTableDef {
    open spec fn key(&self) -> Seq<char> {
        self.id@
    }

    fn name(&self) -> (r: &str) {
        self.id.as_str()
    }
}

} // verus!
