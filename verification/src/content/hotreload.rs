//! The hot-reload protocol: how a content swap propagates to a live match.
//!
//! Only the session coordinator (a capability holder) may publish a new
//! [`ContentVersion`]. Authorities and clients react by fetching the pack blob and
//! staging it into their [`crate::content::registry::ContentRegistry`] for a tick-boundary
//! swap. This module defines the wire-shapes; the server carries them over the
//! mesh control plane and the ce-net blob store.

use crate::content::pack::ContentPack;
use crate::content::words::{
    ability_words, item_words, shader_words, spell_words, status_words, Worded,
};
use crate::table::{before, before_irreflexive, before_transitive, NameMap};
use crate::text::{changed_word_shows, fnv_words, one_apart};
use vstd::prelude::*;
use vstd::utf8::encode_utf8;

verus! {

/// Announced by the coordinator on the session control plane whenever content
/// changes. Monotonic `epoch` defeats stale/replayed announcements; `pack_hash`
/// is the content-addressed blob to fetch.
#[derive(Debug, Clone, PartialEq, Eq)]
pub struct ContentVersion {
    pub epoch: u64,
    /// Hex sha256 of the [`crate::content::pack::ContentPack`] bytes (its blob id).
    pub pack_hash: String,
    /// Human label for logs / the client's "content updated" toast.
    pub label: String,
    /// Coordinator node id that signed this announcement (verified by the mesh).
    pub issuer: String,
    /// If set, the swap must take effect no earlier than this sim tick, giving all
    /// peers time to fetch. 0 = at the next safe boundary after fetch completes.
    pub apply_at_tick: u32,
}

/// What a peer reports back so the coordinator can confirm the fleet converged
/// before relying on new content (e.g. before spawning items only the new pack
/// defines). Convergence is also a health signal: a node stuck on an old epoch is
/// fetched-failed or partitioned.
#[derive(Debug, Clone)]
pub struct ContentAck {
    pub node: String,
    pub epoch: u64,
    pub state: SwapState,
}

#[derive(Debug, Clone, Copy, PartialEq, Eq, Structural)]
pub enum SwapState {
    /// Saw the announcement, fetching the blob.
    Fetching,
    /// Pack fetched + validated + staged, awaiting the tick boundary.
    Staged,
    /// Swap applied; now serving the new epoch.
    Live,
    /// Fetch or validation failed; still on the previous epoch.
    Failed,
}

/// A targeted request a freshly-joined (or recovered) peer sends to ask the
/// coordinator which content version is current, so it can converge immediately
/// rather than waiting for the next announcement.
#[derive(Debug, Clone)]
pub struct ContentVersionQuery;

/// A development convenience: a diff summary the coordinator can log/show so the
/// designer sees exactly what changed between two packs. Not required for the swap
/// itself (the swap is whole-pack and atomic), but invaluable when tweaking live.
#[derive(Debug, Clone)]
pub struct PackDiff {
    pub added: Vec<String>,
    pub removed: Vec<String>,
    pub changed: Vec<String>,
}

/// The map that a list of entries makes; of several with one key, the last counts.
pub open spec fn collected(entries: Seq<(Seq<char>, u64)>) -> Map<Seq<char>, u64>
    decreases entries.len(),
{
    if entries.len() == 0 {
        Map::empty()
    } else {
        collected(entries.drop_last()).insert(entries.last().0, entries.last().1)
    }
}

/// What the summary covers.
pub ghost enum Kind {
    Spell,
    Item,
    Ability,
    Status,
    Shader,
}

impl Kind {
    /// What the keys of the kind begin with.
    pub open spec fn prefix(self) -> Seq<char> {
        match self {
            Kind::Spell => "spell:"@,
            Kind::Item => "item:"@,
            Kind::Ability => "ability:"@,
            Kind::Status => "status:"@,
            Kind::Shader => "shader:"@,
        }
    }
}

/// The pack's definitions of a kind, in order: the id of each, and everything it says as words.
pub open spec fn told(p: ContentPack, kind: Kind) -> Seq<(Seq<char>, Seq<u64>)> {
    match kind {
        Kind::Spell => Seq::new(
            p.spells@.len(),
            |i: int| (p.spells@[i].id@, spell_words(p.spells@[i])),
        ),
        Kind::Item => Seq::new(
            p.items@.len(),
            |i: int| (p.items@[i].id@, item_words(p.items@[i])),
        ),
        Kind::Ability => Seq::new(
            p.abilities@.len(),
            |i: int| (p.abilities@[i].id@, ability_words(p.abilities@[i])),
        ),
        Kind::Status => Seq::new(
            p.statuses@.len(),
            |i: int| (p.statuses@[i].id@, status_words(p.statuses@[i])),
        ),
        Kind::Shader => Seq::new(
            p.shaders@.len(),
            |i: int| (p.shaders@[i].id@, shader_words(p.shaders@[i])),
        ),
    }
}

/// The summary entries of the definitions of a kind: a "kind:id" key and a hash each.
pub open spec fn entries(p: ContentPack, kind: Kind) -> Seq<(Seq<char>, u64)> {
    Seq::new(
        told(p, kind).len(),
        |i: int| (kind.prefix() + told(p, kind)[i].0, fnv_words(told(p, kind)[i].1)),
    )
}

/// The summary entries of all kinds, in order.
pub open spec fn all_entries(p: ContentPack) -> Seq<(Seq<char>, u64)> {
    entries(p, Kind::Spell) + entries(p, Kind::Item) + entries(p, Kind::Ability) + entries(
        p,
        Kind::Status,
    ) + entries(p, Kind::Shader)
}

/// The pack's spells, items, abilities, statuses and shaders, each as a "kind:id" key and a hash
/// of every field of the definition.
pub open spec fn summary(p: ContentPack) -> Map<Seq<char>, u64> {
    collected(all_entries(p))
}

/// The texts are exactly those of the set, in ascending order of their bytes.
pub open spec fn lists(texts: Seq<String>, set: Set<Seq<char>>) -> bool {
    &&& forall|i: int, j: int|
        0 <= i < j < texts.len() ==> before(
            encode_utf8(#[trigger] texts[i]@),
            encode_utf8(#[trigger] texts[j]@),
        )
    &&& forall|i: int| 0 <= i < texts.len() ==> set.contains(#[trigger] texts[i]@)
    &&& forall|k: Seq<char>| #[trigger]
        set.contains(k) ==> exists|i: int| 0 <= i < texts.len() && #[trigger] texts[i]@ == k
}

/// The keys of the second summary that the first does not have.
pub open spec fn new_keys(a: Map<Seq<char>, u64>, b: Map<Seq<char>, u64>) -> Set<Seq<char>> {
    b.dom().difference(a.dom())
}

/// The keys of both summaries whose hashes differ.
pub open spec fn changed_keys(a: Map<Seq<char>, u64>, b: Map<Seq<char>, u64>) -> Set<Seq<char>> {
    Set::new(|k: Seq<char>| a.contains_key(k) && b.contains_key(k) && a[k] != b[k])
}

fn key_text(kind: &str, id: &str) -> (r: String)
    ensures
        r@ == kind@ + id@,
{
    let mut text = kind.to_owned();
    text.append(id);
    text
}

/// Indexes the pack's spells.
fn index_spells(m: &mut NameMap<u64>, p: &ContentPack, Ghost(base): Ghost<Seq<(Seq<char>, u64)>>)
    requires
        old(m).well_formed(),
        old(m)@ == collected(base),
    ensures
        final(m).well_formed(),
        final(m)@ == collected(base + entries(*p, Kind::Spell)),
{
    let mut i: usize = 0;
    assert(base + entries(*p, Kind::Spell).take(0) =~= base);
    while i < p.spells.len()
        invariant
            i <= p.spells.len(),
            m.well_formed(),
            m@ == collected(base + entries(*p, Kind::Spell).take(i as int)),
        decreases p.spells.len() - i,
    {
        let d = &p.spells[i];
        m.insert(key_text("spell:", d.id.as_str()), d.to_word());
        proof {
            grow(base, entries(*p, Kind::Spell), i as int);
        }
        i = i + 1;
    }
    assert(entries(*p, Kind::Spell).take(i as int) =~= entries(*p, Kind::Spell));
}

/// Indexes the pack's items.
fn index_items(m: &mut NameMap<u64>, p: &ContentPack, Ghost(base): Ghost<Seq<(Seq<char>, u64)>>)
    requires
        old(m).well_formed(),
        old(m)@ == collected(base),
    ensures
        final(m).well_formed(),
        final(m)@ == collected(base + entries(*p, Kind::Item)),
{
    let mut i: usize = 0;
    assert(base + entries(*p, Kind::Item).take(0) =~= base);
    while i < p.items.len()
        invariant
            i <= p.items.len(),
            m.well_formed(),
            m@ == collected(base + entries(*p, Kind::Item).take(i as int)),
        decreases p.items.len() - i,
    {
        let d = &p.items[i];
        m.insert(key_text("item:", d.id.as_str()), d.to_word());
        proof {
            grow(base, entries(*p, Kind::Item), i as int);
        }
        i = i + 1;
    }
    assert(entries(*p, Kind::Item).take(i as int) =~= entries(*p, Kind::Item));
}

/// Indexes the pack's abilities.
fn index_abilities(m: &mut NameMap<u64>, p: &ContentPack, Ghost(base): Ghost<Seq<(Seq<char>, u64)>>)
    requires
        old(m).well_formed(),
        old(m)@ == collected(base),
    ensures
        final(m).well_formed(),
        final(m)@ == collected(base + entries(*p, Kind::Ability)),
{
    let mut i: usize = 0;
    assert(base + entries(*p, Kind::Ability).take(0) =~= base);
    while i < p.abilities.len()
        invariant
            i <= p.abilities.len(),
            m.well_formed(),
            m@ == collected(base + entries(*p, Kind::Ability).take(i as int)),
        decreases p.abilities.len() - i,
    {
        let d = &p.abilities[i];
        m.insert(key_text("ability:", d.id.as_str()), d.to_word());
        proof {
            grow(base, entries(*p, Kind::Ability), i as int);
        }
        i = i + 1;
    }
    assert(entries(*p, Kind::Ability).take(i as int) =~= entries(*p, Kind::Ability));
}

/// Indexes the pack's statuses.
fn index_statuses(m: &mut NameMap<u64>, p: &ContentPack, Ghost(base): Ghost<Seq<(Seq<char>, u64)>>)
    requires
        old(m).well_formed(),
        old(m)@ == collected(base),
    ensures
        final(m).well_formed(),
        final(m)@ == collected(base + entries(*p, Kind::Status)),
{
    let mut i: usize = 0;
    assert(base + entries(*p, Kind::Status).take(0) =~= base);
    while i < p.statuses.len()
        invariant
            i <= p.statuses.len(),
            m.well_formed(),
            m@ == collected(base + entries(*p, Kind::Status).take(i as int)),
        decreases p.statuses.len() - i,
    {
        let d = &p.statuses[i];
        m.insert(key_text("status:", d.id.as_str()), d.to_word());
        proof {
            grow(base, entries(*p, Kind::Status), i as int);
        }
        i = i + 1;
    }
    assert(entries(*p, Kind::Status).take(i as int) =~= entries(*p, Kind::Status));
}

/// Indexes the pack's shaders.
fn index_shaders(m: &mut NameMap<u64>, p: &ContentPack, Ghost(base): Ghost<Seq<(Seq<char>, u64)>>)
    requires
        old(m).well_formed(),
        old(m)@ == collected(base),
    ensures
        final(m).well_formed(),
        final(m)@ == collected(base + entries(*p, Kind::Shader)),
{
    let mut i: usize = 0;
    assert(base + entries(*p, Kind::Shader).take(0) =~= base);
    while i < p.shaders.len()
        invariant
            i <= p.shaders.len(),
            m.well_formed(),
            m@ == collected(base + entries(*p, Kind::Shader).take(i as int)),
        decreases p.shaders.len() - i,
    {
        let d = &p.shaders[i];
        m.insert(key_text("shader:", d.id.as_str()), d.to_word());
        proof {
            grow(base, entries(*p, Kind::Shader), i as int);
        }
        i = i + 1;
    }
    assert(entries(*p, Kind::Shader).take(i as int) =~= entries(*p, Kind::Shader));
}

/// Indexes every covered definition by its "kind:id" key.
fn summarize(p: &ContentPack) -> (r: NameMap<u64>)
    ensures
        r.well_formed(),
        r@ == summary(*p),
{
    let mut m: NameMap<u64> = NameMap::new();
    let ghost none = Seq::<(Seq<char>, u64)>::empty();
    index_spells(&mut m, p, Ghost(none));
    let ghost done = entries(*p, Kind::Spell);
    assert(none + done =~= done);
    index_items(&mut m, p, Ghost(done));
    let ghost done = done + entries(*p, Kind::Item);
    index_abilities(&mut m, p, Ghost(done));
    let ghost done = done + entries(*p, Kind::Ability);
    index_statuses(&mut m, p, Ghost(done));
    let ghost done = done + entries(*p, Kind::Status);
    index_shaders(&mut m, p, Ghost(done));
    m
}

proof fn grow(base: Seq<(Seq<char>, u64)>, entries: Seq<(Seq<char>, u64)>, i: int)
    requires
        0 <= i < entries.len(),
    ensures
        collected(base + entries.take(i + 1)) == collected(base + entries.take(i)).insert(
            entries[i].0,
            entries[i].1,
        ),
{
    let next = base + entries.take(i + 1);
    assert(next.drop_last() =~= base + entries.take(i));
    assert(next.last() == entries[i]);
}

impl PackDiff {
    /// Compute a coarse id-level diff between two packs (by stable id presence and
    /// per-def hash). Intended for logging the designer's live edits. Each list is in
    /// ascending key order.
    pub fn between(old: &ContentPack, new: &ContentPack) -> (r: PackDiff)
        ensures
            lists(r.added@, new_keys(summary(*old), summary(*new))),
            lists(r.removed@, new_keys(summary(*new), summary(*old))),
            lists(r.changed@, changed_keys(summary(*old), summary(*new))),
    {
        let a = summarize(old);
        let b = summarize(new);
        PackDiff { added: keys_only_in(&b, &a), removed: keys_only_in(&a, &b), changed: keys_changed(&a, &b) }
    }
}

/// The list so far is in order, holds only wanted keys, and misses none of the entries
/// before `n`.
spec fn partial(texts: Seq<String>, of: NameMap<u64>, set: Set<Seq<char>>, n: int) -> bool {
    &&& forall|i: int, j: int|
        0 <= i < j < texts.len() ==> before(
            encode_utf8(#[trigger] texts[i]@),
            encode_utf8(#[trigger] texts[j]@),
        )
    &&& forall|i: int|
        0 <= i < texts.len() ==> set.contains(#[trigger] texts[i]@) && (n < of.entries@.len() ==> before(
            encode_utf8(texts[i]@),
            of.key_bytes(n),
        ))
    &&& forall|m: int|
        0 <= m < n && set.contains(#[trigger] of.entries@[m].0@) ==> exists|i: int|
            0 <= i < texts.len() && #[trigger] texts[i]@ == of.entries@[m].0@
}

proof fn partial_step(
    texts: Seq<String>,
    next: Seq<String>,
    of: NameMap<u64>,
    set: Set<Seq<char>>,
    n: int,
)
    requires
        of.well_formed(),
        0 <= n < of.entries@.len(),
        partial(texts, of, set, n),
        set.contains(of.entries@[n].0@) ==> next.len() == texts.len() + 1 && next.last()@
            == of.entries@[n].0@ && next.drop_last() == texts,
        !set.contains(of.entries@[n].0@) ==> next == texts,
    ensures
        partial(next, of, set, n + 1),
{
    if set.contains(of.entries@[n].0@) {
        assert forall|i: int| 0 <= i < texts.len() implies next[i] == texts[i] by {
            assert(next.drop_last()[i] == next[i]);
        }
    }
    assert forall|i: int, j: int| 0 <= i < j < next.len() implies before(
        encode_utf8(#[trigger] next[i]@),
        encode_utf8(#[trigger] next[j]@),
    ) by {
        assert(texts[i] == next[i]);
        if j == texts.len() {
            assert(of.key_bytes(n) == encode_utf8(next[j]@));
        }
    }
    assert forall|i: int| 0 <= i < next.len() implies set.contains(#[trigger] next[i]@) && (n + 1
        < of.entries@.len() ==> before(encode_utf8(next[i]@), of.key_bytes(n + 1))) by {
        if n + 1 < of.entries@.len() {
            assert(before(of.key_bytes(n), of.key_bytes(n + 1)));
            if i < texts.len() {
                assert(texts[i] == next[i]);
                before_transitive(
                    encode_utf8(next[i]@),
                    of.key_bytes(n),
                    of.key_bytes(n + 1),
                );
            }
        }
        if i < texts.len() {
            assert(texts[i] == next[i]);
        }
    }
    assert forall|m: int| 0 <= m < n + 1 && set.contains(
        #[trigger] of.entries@[m].0@,
    ) implies exists|i: int| 0 <= i < next.len() && #[trigger] next[i]@ == of.entries@[m].0@ by {
        if m < n {
            let i = choose|i: int| 0 <= i < texts.len() && #[trigger] texts[i]@ == of.entries@[m].0@;
            assert(next[i]@ == of.entries@[m].0@);
        } else {
            assert(next[texts.len() as int]@ == of.entries@[m].0@);
        }
    }
}

proof fn partial_done(texts: Seq<String>, of: NameMap<u64>, set: Set<Seq<char>>)
    requires
        of.well_formed(),
        partial(texts, of, set, of.entries@.len() as int),
        set.subset_of(of@.dom()),
    ensures
        lists(texts, set),
{
    assert forall|k: Seq<char>| #[trigger] set.contains(k) implies exists|i: int|
        0 <= i < texts.len() && #[trigger] texts[i]@ == k by {
        assert(of.has(k));
        let m = of.index_of(k);
        assert(set.contains(of.entries@[m].0@));
    }
}

fn keys_only_in(b: &NameMap<u64>, a: &NameMap<u64>) -> (r: Vec<String>)
    requires
        a.well_formed(),
        b.well_formed(),
    ensures
        lists(r@, new_keys(a@, b@)),
{
    let ghost set = new_keys(a@, b@);
    let mut out: Vec<String> = Vec::new();
    let mut n: usize = 0;
    while n < b.entries.len()
        invariant
            n <= b.entries.len(),
            a.well_formed(),
            b.well_formed(),
            set == new_keys(a@, b@),
            partial(out@, *b, set, n as int),
        decreases b.entries.len() - n,
    {
        let ghost was = out@;
        let key = &b.entries[n].0;
        proof {
            b.index_of_is(n as int);
        }
        if !a.contains(key.as_str()) {
            out.push(key.clone());
            assert(out@.drop_last() =~= was);
        }
        proof {
            partial_step(was, out@, *b, set, n as int);
        }
        n = n + 1;
    }
    proof {
        partial_done(out@, *b, set);
    }
    out
}

fn keys_changed(a: &NameMap<u64>, b: &NameMap<u64>) -> (r: Vec<String>)
    requires
        a.well_formed(),
        b.well_formed(),
    ensures
        lists(r@, changed_keys(a@, b@)),
{
    let ghost set = changed_keys(a@, b@);
    let mut out: Vec<String> = Vec::new();
    let mut n: usize = 0;
    while n < b.entries.len()
        invariant
            n <= b.entries.len(),
            a.well_formed(),
            b.well_formed(),
            set == changed_keys(a@, b@),
            partial(out@, *b, set, n as int),
        decreases b.entries.len() - n,
    {
        let ghost was = out@;
        let key = &b.entries[n].0;
        proof {
            b.index_of_is(n as int);
        }
        match a.get(key.as_str()) {
            Some(h) => {
                if *h != b.entries[n].1 {
                    out.push(key.clone());
                    assert(out@.drop_last() =~= was);
                }
            },
            None => {},
        }
        proof {
            partial_step(was, out@, *b, set, n as int);
        }
        n = n + 1;
    }
    proof {
        partial_done(out@, *b, set);
    }
    out
}

/// A pack does not differ from itself.
pub proof fn no_diff_with_itself(p: ContentPack)
    ensures
        new_keys(summary(p), summary(p)) == Set::<Seq<char>>::empty(),
        changed_keys(summary(p), summary(p)) == Set::<Seq<char>>::empty(),
{
    assert(new_keys(summary(p), summary(p)) =~= Set::<Seq<char>>::empty());
    assert(changed_keys(summary(p), summary(p)) =~= Set::<Seq<char>>::empty());
}

proof fn collected_last(entries: Seq<(Seq<char>, u64)>, i: int)
    requires
        0 <= i < entries.len(),
        forall|k: int| i < k < entries.len() ==> (#[trigger] entries[k]).0 != entries[i].0,
    ensures
        collected(entries).contains_key(entries[i].0),
        collected(entries)[entries[i].0] == entries[i].1,
    decreases entries.len(),
{
    if i < entries.len() - 1 {
        let init = entries.drop_last();
        assert forall|k: int| i < k < init.len() implies (#[trigger] init[k]).0 != init[i].0 by {
            assert(init[k] == entries[k]);
        }
        collected_last(init, i);
        assert(entries[entries.len() - 1].0 != entries[i].0);
    }
}

/// No later definition of the list has this one's id.
pub open spec fn is_last(list: Seq<(Seq<char>, Seq<u64>)>, i: int) -> bool {
    &&& 0 <= i < list.len()
    &&& forall|k: int| i < k < list.len() ==> (#[trigger] list[k]).0 != list[i].0
}

/// How many entries stand before those of the kind.
spec fn start(p: ContentPack, kind: Kind) -> int {
    let spells = p.spells@.len() as int;
    let items = spells + p.items@.len();
    let abilities = items + p.abilities@.len();
    match kind {
        Kind::Spell => 0,
        Kind::Item => spells,
        Kind::Ability => items,
        Kind::Status => abilities,
        Kind::Shader => abilities + p.statuses@.len(),
    }
}

/// The kind that an entry is of.
spec fn kind_at(p: ContentPack, n: int) -> Kind {
    if n < start(p, Kind::Item) {
        Kind::Spell
    } else if n < start(p, Kind::Ability) {
        Kind::Item
    } else if n < start(p, Kind::Status) {
        Kind::Ability
    } else if n < start(p, Kind::Shader) {
        Kind::Status
    } else {
        Kind::Shader
    }
}

proof fn entry_at(p: ContentPack, n: int)
    requires
        0 <= n < all_entries(p).len(),
    ensures
        ({
            let kind = kind_at(p, n);
            let i = n - start(p, kind);
            0 <= i < told(p, kind).len() && all_entries(p)[n] == entries(p, kind)[i]
        }),
{
}

proof fn entry_stands_at(p: ContentPack, kind: Kind, i: int)
    requires
        0 <= i < told(p, kind).len(),
    ensures
        0 <= start(p, kind) + i < all_entries(p).len(),
        kind_at(p, start(p, kind) + i) == kind,
        all_entries(p)[start(p, kind) + i] == entries(p, kind)[i],
{
}

proof fn keys_tell_kinds_apart(a: Kind, b: Kind, x: Seq<char>, y: Seq<char>)
    requires
        a.prefix() + x == b.prefix() + y,
    ensures
        a == b,
        x == y,
{
    reveal_strlit("spell:");
    reveal_strlit("item:");
    reveal_strlit("ability:");
    reveal_strlit("status:");
    reveal_strlit("shader:");
    let (p, q) = (a.prefix() + x, b.prefix() + y);
    assert(p[0] == a.prefix()[0] && p[1] == a.prefix()[1]);
    assert(q[0] == b.prefix()[0] && q[1] == b.prefix()[1]);
    assert(a == b);
    let n = a.prefix().len() as int;
    assert(p.skip(n) =~= x);
    assert(q.skip(n) =~= y);
}

proof fn last_is_summarized(p: ContentPack, kind: Kind, i: int)
    requires
        is_last(told(p, kind), i),
    ensures
        ({
            let (id, words) = told(p, kind)[i];
            let key = kind.prefix() + id;
            summary(p).contains_key(key) && summary(p)[key] == fnv_words(words)
        }),
{
    let all = all_entries(p);
    let at = start(p, kind) + i;
    entry_stands_at(p, kind, i);
    assert forall|k: int| at < k < all.len() implies (#[trigger] all[k]).0 != all[at].0 by {
        entry_at(p, k);
        let other = kind_at(p, k);
        let j = k - start(p, other);
        if all[k].0 == all[at].0 {
            keys_tell_kinds_apart(other, kind, told(p, other)[j].0, told(p, kind)[i].0);
            assert(told(p, kind)[j].0 != told(p, kind)[i].0);
        }
    }
    collected_last(all, at);
}

/// A definition of any kind that was edited in one place, whichever it is, is listed as
/// changed: no two definitions that are one word apart share a hash.
pub proof fn edited_definition_shows(old: ContentPack, new: ContentPack, kind: Kind, i: int, j: int)
    requires
        is_last(told(old, kind), i),
        is_last(told(new, kind), j),
        told(old, kind)[i].0 == told(new, kind)[j].0,
        one_apart(told(old, kind)[i].1, told(new, kind)[j].1),
    ensures
        changed_keys(summary(old), summary(new)).contains(kind.prefix() + told(old, kind)[i].0),
{
    last_is_summarized(old, kind, i);
    last_is_summarized(new, kind, j);
    changed_word_shows(told(old, kind)[i].1, told(new, kind)[j].1);
}

proof fn collected_but_one(a: Seq<(Seq<char>, u64)>, b: Seq<(Seq<char>, u64)>, at: int)
    requires
        a.len() == b.len(),
        forall|i: int| 0 <= i < a.len() ==> (#[trigger] a[i]).0 == b[i].0,
        forall|i: int| 0 <= i < a.len() && i != at ==> #[trigger] a[i] == b[i],
    ensures
        collected(a).dom() == collected(b).dom(),
        forall|k: Seq<char>|
            #[trigger] collected(a).contains_key(k) && (0 <= at < a.len() ==> k != a[at].0)
                ==> collected(a)[k] == collected(b)[k],
    decreases a.len(),
{
    if a.len() > 0 {
        let (c, d) = (a.drop_last(), b.drop_last());
        assert forall|i: int| 0 <= i < c.len() implies (#[trigger] c[i]).0 == d[i].0 by {
            assert(a[i].0 == b[i].0);
        }
        assert forall|i: int| 0 <= i < c.len() && i != at implies #[trigger] c[i] == d[i] by {
            assert(a[i] == b[i]);
        }
        collected_but_one(c, d, at);
        let last = a.len() - 1;
        assert(a[last].0 == b[last].0);
        assert(collected(a).dom() =~= collected(b).dom());
        assert forall|k: Seq<char>|
            #[trigger] collected(a).contains_key(k) && (0 <= at < a.len() ==> k != a[at].0)
            implies collected(a)[k] == collected(b)[k] by {
            if k != a[last].0 {
                assert(collected(c).contains_key(k));
            } else if at != last {
                assert(a[last] == b[last]);
            }
        }
    }
}

/// The designer sees exactly what changed: where one definition was edited in one place, and
/// nothing else that the summary covers was touched, that definition is listed as changed,
/// nothing else is, and nothing is listed as added or removed.
pub proof fn exactly_the_edited_definition_shows(
    old: ContentPack,
    new: ContentPack,
    kind: Kind,
    i: int,
)
    requires
        forall|other: Kind| other != kind ==> #[trigger] told(old, other) == told(new, other),
        told(old, kind).len() == told(new, kind).len(),
        is_last(told(old, kind), i),
        forall|k: int|
            0 <= k < told(old, kind).len() && k != i ==> #[trigger] told(old, kind)[k] == told(
                new,
                kind,
            )[k],
        told(old, kind)[i].0 == told(new, kind)[i].0,
        one_apart(told(old, kind)[i].1, told(new, kind)[i].1),
    ensures
        changed_keys(summary(old), summary(new)) == set![kind.prefix() + told(old, kind)[i].0],
        new_keys(summary(old), summary(new)) == Set::<Seq<char>>::empty(),
        new_keys(summary(new), summary(old)) == Set::<Seq<char>>::empty(),
{
    assert forall|k: int| i < k < told(new, kind).len() implies (#[trigger] told(new, kind)[k]).0
        != told(new, kind)[i].0 by {
        assert(told(old, kind)[k] == told(new, kind)[k]);
    }
    edited_definition_shows(old, new, kind, i, i);
    let a = all_entries(old);
    let b = all_entries(new);
    let at = start(old, kind) + i;
    let key = kind.prefix() + told(old, kind)[i].0;
    same_shape(old, new, kind);
    entry_stands_at(old, kind, i);
    assert forall|n: int| 0 <= n < a.len() implies (#[trigger] a[n]).0 == b[n].0 && (n != at ==> a[n]
        == b[n]) by {
        entry_at(old, n);
        entry_at(new, n);
        let k = kind_at(old, n);
        let s = n - start(old, k);
        assert(told(old, k).len() == told(new, k).len());
        if k == kind && s != i {
            assert(told(old, kind)[s] == told(new, kind)[s]);
        }
    }
    collected_but_one(a, b, at);
    assert(changed_keys(summary(old), summary(new)) =~= set![key]);
    assert(new_keys(summary(old), summary(new)) =~= Set::<Seq<char>>::empty());
    assert(new_keys(summary(new), summary(old)) =~= Set::<Seq<char>>::empty());
}

proof fn same_shape(old: ContentPack, new: ContentPack, kind: Kind)
    requires
        forall|other: Kind| other != kind ==> #[trigger] told(old, other) == told(new, other),
        told(old, kind).len() == told(new, kind).len(),
    ensures
        all_entries(old).len() == all_entries(new).len(),
        forall|k: Kind| start(old, k) == #[trigger] start(new, k),
        forall|n: int| kind_at(old, n) == #[trigger] kind_at(new, n),
{
    assert(told(old, Kind::Spell).len() == told(new, Kind::Spell).len());
    assert(told(old, Kind::Item).len() == told(new, Kind::Item).len());
    assert(told(old, Kind::Ability).len() == told(new, Kind::Ability).len());
    assert(told(old, Kind::Status).len() == told(new, Kind::Status).len());
    assert(told(old, Kind::Shader).len() == told(new, Kind::Shader).len());
}

/// The two lists hold the same texts in the same order.
pub open spec fn same_texts(a: Seq<String>, b: Seq<String>) -> bool {
    &&& a.len() == b.len()
    &&& forall|i: int| 0 <= i < a.len() ==> #[trigger] a[i]@ == b[i]@
}

proof fn listing_prefix(a: Seq<String>, b: Seq<String>, set: Set<Seq<char>>, n: int)
    requires
        lists(a, set),
        lists(b, set),
        0 <= n <= a.len(),
    ensures
        n <= b.len(),
        forall|i: int| 0 <= i < n ==> #[trigger] a[i]@ == b[i]@,
    decreases n,
{
    if n > 0 {
        let k = n - 1;
        listing_prefix(a, b, set, k);
        assert(set.contains(a[k]@));
        let j = choose|j: int| 0 <= j < b.len() && #[trigger] b[j]@ == a[k]@;
        before_irreflexive(encode_utf8(a[k]@));
        if j < k {
            assert(a[j]@ == b[j]@);
        }
        assert(set.contains(b[k]@));
        let m = choose|m: int| 0 <= m < a.len() && #[trigger] a[m]@ == b[k]@;
        if m < k {
            assert(a[m]@ == b[m]@);
            before_irreflexive(encode_utf8(b[k]@));
        }
        if m > k && j > k {
            before_transitive(encode_utf8(a[k]@), encode_utf8(a[m]@), encode_utf8(b[j]@));
        }
    }
}

/// A set of names is listed in one way only.
pub proof fn listing_is_unique(a: Seq<String>, b: Seq<String>, set: Set<Seq<char>>)
    requires
        lists(a, set),
        lists(b, set),
    ensures
        same_texts(a, b),
{
    listing_prefix(a, b, set, a.len() as int);
    listing_prefix(b, a, set, b.len() as int);
}

/// Undoing an edit adds what the edit removed, removes what it added, and changes back
/// what it changed.
pub proof fn undo_swaps_the_lists(a: ContentPack, b: ContentPack, edit: PackDiff, undo: PackDiff)
    requires
        lists(edit.added@, new_keys(summary(a), summary(b))),
        lists(edit.removed@, new_keys(summary(b), summary(a))),
        lists(edit.changed@, changed_keys(summary(a), summary(b))),
        lists(undo.added@, new_keys(summary(b), summary(a))),
        lists(undo.removed@, new_keys(summary(a), summary(b))),
        lists(undo.changed@, changed_keys(summary(b), summary(a))),
    ensures
        same_texts(edit.added@, undo.removed@),
        same_texts(edit.removed@, undo.added@),
        same_texts(edit.changed@, undo.changed@),
{
    assert(changed_keys(summary(a), summary(b)) =~= changed_keys(summary(b), summary(a)));
    listing_is_unique(edit.added@, undo.removed@, new_keys(summary(a), summary(b)));
    listing_is_unique(edit.removed@, undo.added@, new_keys(summary(b), summary(a)));
    listing_is_unique(edit.changed@, undo.changed@, changed_keys(summary(a), summary(b)));
}

impl Default for PackDiff {
    fn default() -> (r: Self)
        ensures
            r.added@.len() == 0,
            r.removed@.len() == 0,
            r.changed@.len() == 0,
    {
        PackDiff { added: Vec::new(), removed: Vec::new(), changed: Vec::new() }
    }
}

impl ContentPack {
    /// The pack has a shader of this id.
    pub open spec fn has_shader(self, id: Seq<char>) -> bool {
        exists|k: int| 0 <= k < self.shaders@.len() && (#[trigger] self.shaders@[k]).id@ == id
    }
}

/// One of the texts is this one.
pub open spec fn mentions(texts: Seq<String>, text: Seq<char>) -> bool {
    exists|i: int| 0 <= i < texts.len() && #[trigger] texts[i]@ == text
}

proof fn collected_has(entries: Seq<(Seq<char>, u64)>, k: Seq<char>)
    ensures
        collected(entries).contains_key(k) <==> exists|i: int|
            0 <= i < entries.len() && (#[trigger] entries[i]).0 == k,
    decreases entries.len(),
{
    if entries.len() > 0 {
        let init = entries.drop_last();
        collected_has(init, k);
        if exists|i: int| 0 <= i < init.len() && (#[trigger] init[i]).0 == k {
            let i = choose|i: int| 0 <= i < init.len() && (#[trigger] init[i]).0 == k;
            assert(entries[i].0 == k);
        }
        if exists|i: int| 0 <= i < entries.len() && (#[trigger] entries[i]).0 == k {
            let i = choose|i: int| 0 <= i < entries.len() && (#[trigger] entries[i]).0 == k;
            if i < init.len() {
                assert(init[i].0 == k);
            }
        }
        assert(entries[entries.len() - 1].0 == entries.last().0);
    }
}

proof fn summary_has(p: ContentPack, kind: Kind, id: Seq<char>)
    ensures
        summary(p).contains_key(kind.prefix() + id) <==> exists|i: int|
            0 <= i < told(p, kind).len() && (#[trigger] told(p, kind)[i]).0 == id,
{
    let all = all_entries(p);
    let key = kind.prefix() + id;
    collected_has(all, key);
    if exists|i: int| 0 <= i < all.len() && (#[trigger] all[i]).0 == key {
        let n = choose|i: int| 0 <= i < all.len() && (#[trigger] all[i]).0 == key;
        entry_at(p, n);
        let other = kind_at(p, n);
        let j = n - start(p, other);
        keys_tell_kinds_apart(other, kind, told(p, other)[j].0, id);
        assert(told(p, kind)[j].0 == id);
    }
    if exists|i: int| 0 <= i < told(p, kind).len() && (#[trigger] told(p, kind)[i]).0 == id {
        let i = choose|i: int| 0 <= i < told(p, kind).len() && (#[trigger] told(p, kind)[i]).0 == id;
        entry_stands_at(p, kind, i);
        assert(all[start(p, kind) + i].0 == key);
    }
}

proof fn told_by_id(p: ContentPack, id: Seq<char>)
    ensures
        summary(p).contains_key("spell:"@ + id) <==> p.has_spell(id),
        summary(p).contains_key("item:"@ + id) <==> p.has_item(id),
        summary(p).contains_key("ability:"@ + id) <==> p.has_ability(id),
        summary(p).contains_key("status:"@ + id) <==> p.has_status(id),
        summary(p).contains_key("shader:"@ + id) <==> p.has_shader(id),
{
    summary_has(p, Kind::Spell, id);
    if p.has_spell(id) {
        let k = choose|k: int| 0 <= k < p.spells@.len() && (#[trigger] p.spells@[k]).id@ == id;
        assert(told(p, Kind::Spell)[k].0 == id);
    }
    if exists|i: int| 0 <= i < told(p, Kind::Spell).len() && (#[trigger] told(p, Kind::Spell)[i]).0 == id {
        let i = choose|i: int|
            0 <= i < told(p, Kind::Spell).len() && (#[trigger] told(p, Kind::Spell)[i]).0 == id;
        assert(p.spells@[i].id@ == id);
    }
    summary_has(p, Kind::Item, id);
    if p.has_item(id) {
        let k = choose|k: int| 0 <= k < p.items@.len() && (#[trigger] p.items@[k]).id@ == id;
        assert(told(p, Kind::Item)[k].0 == id);
    }
    if exists|i: int| 0 <= i < told(p, Kind::Item).len() && (#[trigger] told(p, Kind::Item)[i]).0 == id {
        let i = choose|i: int|
            0 <= i < told(p, Kind::Item).len() && (#[trigger] told(p, Kind::Item)[i]).0 == id;
        assert(p.items@[i].id@ == id);
    }
    summary_has(p, Kind::Ability, id);
    if p.has_ability(id) {
        let k = choose|k: int| 0 <= k < p.abilities@.len() && (#[trigger] p.abilities@[k]).id@ == id;
        assert(told(p, Kind::Ability)[k].0 == id);
    }
    if exists|i: int| 0 <= i < told(p, Kind::Ability).len() && (#[trigger] told(p, Kind::Ability)[i]).0 == id {
        let i = choose|i: int|
            0 <= i < told(p, Kind::Ability).len() && (#[trigger] told(p, Kind::Ability)[i]).0 == id;
        assert(p.abilities@[i].id@ == id);
    }
    summary_has(p, Kind::Status, id);
    if p.has_status(id) {
        let k = choose|k: int| 0 <= k < p.statuses@.len() && (#[trigger] p.statuses@[k]).id@ == id;
        assert(told(p, Kind::Status)[k].0 == id);
    }
    if exists|i: int| 0 <= i < told(p, Kind::Status).len() && (#[trigger] told(p, Kind::Status)[i]).0 == id {
        let i = choose|i: int|
            0 <= i < told(p, Kind::Status).len() && (#[trigger] told(p, Kind::Status)[i]).0 == id;
        assert(p.statuses@[i].id@ == id);
    }
    summary_has(p, Kind::Shader, id);
    if p.has_shader(id) {
        let k = choose|k: int| 0 <= k < p.shaders@.len() && (#[trigger] p.shaders@[k]).id@ == id;
        assert(told(p, Kind::Shader)[k].0 == id);
    }
    if exists|i: int| 0 <= i < told(p, Kind::Shader).len() && (#[trigger] told(p, Kind::Shader)[i]).0 == id {
        let i = choose|i: int|
            0 <= i < told(p, Kind::Shader).len() && (#[trigger] told(p, Kind::Shader)[i]).0 == id;
        assert(p.shaders@[i].id@ == id);
    }
}

proof fn listed_means_mentioned(texts: Seq<String>, set: Set<Seq<char>>, key: Seq<char>)
    requires
        lists(texts, set),
    ensures
        mentions(texts, key) <==> set.contains(key),
{
}

/// What a pack defines and the other does not is listed, under its kind: as added if it is new, as
/// removed if it is gone, and as neither otherwise.
pub proof fn what_comes_and_goes_is_listed(old: &ContentPack, new: &ContentPack, d: PackDiff, id: Seq<char>)
    requires
        call_ensures(PackDiff::between, (old, new), d),
    ensures
        mentions(d.added@, "spell:"@ + id) <==> new.has_spell(id) && !old.has_spell(id),
        mentions(d.removed@, "spell:"@ + id) <==> old.has_spell(id) && !new.has_spell(id),
        mentions(d.added@, "item:"@ + id) <==> new.has_item(id) && !old.has_item(id),
        mentions(d.removed@, "item:"@ + id) <==> old.has_item(id) && !new.has_item(id),
        mentions(d.added@, "ability:"@ + id) <==> new.has_ability(id) && !old.has_ability(id),
        mentions(d.removed@, "ability:"@ + id) <==> old.has_ability(id) && !new.has_ability(id),
        mentions(d.added@, "status:"@ + id) <==> new.has_status(id) && !old.has_status(id),
        mentions(d.removed@, "status:"@ + id) <==> old.has_status(id) && !new.has_status(id),
        mentions(d.added@, "shader:"@ + id) <==> new.has_shader(id) && !old.has_shader(id),
        mentions(d.removed@, "shader:"@ + id) <==> old.has_shader(id) && !new.has_shader(id),
{
    told_by_id(*old, id);
    told_by_id(*new, id);
    listed_means_mentioned(d.added@, new_keys(summary(*old), summary(*new)), "spell:"@ + id);
    listed_means_mentioned(d.removed@, new_keys(summary(*new), summary(*old)), "spell:"@ + id);
    listed_means_mentioned(d.added@, new_keys(summary(*old), summary(*new)), "item:"@ + id);
    listed_means_mentioned(d.removed@, new_keys(summary(*new), summary(*old)), "item:"@ + id);
    listed_means_mentioned(d.added@, new_keys(summary(*old), summary(*new)), "ability:"@ + id);
    listed_means_mentioned(d.removed@, new_keys(summary(*new), summary(*old)), "ability:"@ + id);
    listed_means_mentioned(d.added@, new_keys(summary(*old), summary(*new)), "status:"@ + id);
    listed_means_mentioned(d.removed@, new_keys(summary(*new), summary(*old)), "status:"@ + id);
    listed_means_mentioned(d.added@, new_keys(summary(*old), summary(*new)), "shader:"@ + id);
    listed_means_mentioned(d.removed@, new_keys(summary(*new), summary(*old)), "shader:"@ + id);
}

/// Where both packs define a spell, it is listed as changed exactly if the two definitions hash apart.
pub proof fn edits_of_spells_are_listed(old: &ContentPack, new: &ContentPack, d: PackDiff, i: int, j: int)
    requires
        call_ensures(PackDiff::between, (old, new), d),
        0 <= i < old.spells@.len(),
        0 <= j < new.spells@.len(),
        old.spells@[i].id@ == new.spells@[j].id@,
        forall|k: int|
            i < k < old.spells@.len() ==> (#[trigger] old.spells@[k]).id@ != old.spells@[i].id@,
        forall|k: int|
            j < k < new.spells@.len() ==> (#[trigger] new.spells@[k]).id@ != new.spells@[j].id@,
    ensures
        mentions(d.changed@, "spell:"@ + old.spells@[i].id@) <==> old.spells@[i].word()
            != new.spells@[j].word(),
        !mentions(d.added@, "spell:"@ + old.spells@[i].id@),
        !mentions(d.removed@, "spell:"@ + old.spells@[i].id@),
{
    let key = "spell:"@ + old.spells@[i].id@;
    assert(is_last(told(*old, Kind::Spell), i));
    assert(is_last(told(*new, Kind::Spell), j));
    last_is_summarized(*old, Kind::Spell, i);
    last_is_summarized(*new, Kind::Spell, j);
    listed_means_mentioned(d.changed@, changed_keys(summary(*old), summary(*new)), key);
    listed_means_mentioned(d.added@, new_keys(summary(*old), summary(*new)), key);
    listed_means_mentioned(d.removed@, new_keys(summary(*new), summary(*old)), key);
}

/// Where both packs define an item, it is listed as changed exactly if the two definitions hash apart.
pub proof fn edits_of_items_are_listed(old: &ContentPack, new: &ContentPack, d: PackDiff, i: int, j: int)
    requires
        call_ensures(PackDiff::between, (old, new), d),
        0 <= i < old.items@.len(),
        0 <= j < new.items@.len(),
        old.items@[i].id@ == new.items@[j].id@,
        forall|k: int|
            i < k < old.items@.len() ==> (#[trigger] old.items@[k]).id@ != old.items@[i].id@,
        forall|k: int|
            j < k < new.items@.len() ==> (#[trigger] new.items@[k]).id@ != new.items@[j].id@,
    ensures
        mentions(d.changed@, "item:"@ + old.items@[i].id@) <==> old.items@[i].word()
            != new.items@[j].word(),
        !mentions(d.added@, "item:"@ + old.items@[i].id@),
        !mentions(d.removed@, "item:"@ + old.items@[i].id@),
{
    let key = "item:"@ + old.items@[i].id@;
    assert(is_last(told(*old, Kind::Item), i));
    assert(is_last(told(*new, Kind::Item), j));
    last_is_summarized(*old, Kind::Item, i);
    last_is_summarized(*new, Kind::Item, j);
    listed_means_mentioned(d.changed@, changed_keys(summary(*old), summary(*new)), key);
    listed_means_mentioned(d.added@, new_keys(summary(*old), summary(*new)), key);
    listed_means_mentioned(d.removed@, new_keys(summary(*new), summary(*old)), key);
}

/// Where both packs define an ability, it is listed as changed exactly if the two definitions hash apart.
pub proof fn edits_of_abilities_are_listed(old: &ContentPack, new: &ContentPack, d: PackDiff, i: int, j: int)
    requires
        call_ensures(PackDiff::between, (old, new), d),
        0 <= i < old.abilities@.len(),
        0 <= j < new.abilities@.len(),
        old.abilities@[i].id@ == new.abilities@[j].id@,
        forall|k: int|
            i < k < old.abilities@.len() ==> (#[trigger] old.abilities@[k]).id@ != old.abilities@[i].id@,
        forall|k: int|
            j < k < new.abilities@.len() ==> (#[trigger] new.abilities@[k]).id@ != new.abilities@[j].id@,
    ensures
        mentions(d.changed@, "ability:"@ + old.abilities@[i].id@) <==> old.abilities@[i].word()
            != new.abilities@[j].word(),
        !mentions(d.added@, "ability:"@ + old.abilities@[i].id@),
        !mentions(d.removed@, "ability:"@ + old.abilities@[i].id@),
{
    let key = "ability:"@ + old.abilities@[i].id@;
    assert(is_last(told(*old, Kind::Ability), i));
    assert(is_last(told(*new, Kind::Ability), j));
    last_is_summarized(*old, Kind::Ability, i);
    last_is_summarized(*new, Kind::Ability, j);
    listed_means_mentioned(d.changed@, changed_keys(summary(*old), summary(*new)), key);
    listed_means_mentioned(d.added@, new_keys(summary(*old), summary(*new)), key);
    listed_means_mentioned(d.removed@, new_keys(summary(*new), summary(*old)), key);
}

/// Where both packs define a status, it is listed as changed exactly if the two definitions hash apart.
pub proof fn edits_of_statuses_are_listed(old: &ContentPack, new: &ContentPack, d: PackDiff, i: int, j: int)
    requires
        call_ensures(PackDiff::between, (old, new), d),
        0 <= i < old.statuses@.len(),
        0 <= j < new.statuses@.len(),
        old.statuses@[i].id@ == new.statuses@[j].id@,
        forall|k: int|
            i < k < old.statuses@.len() ==> (#[trigger] old.statuses@[k]).id@ != old.statuses@[i].id@,
        forall|k: int|
            j < k < new.statuses@.len() ==> (#[trigger] new.statuses@[k]).id@ != new.statuses@[j].id@,
    ensures
        mentions(d.changed@, "status:"@ + old.statuses@[i].id@) <==> old.statuses@[i].word()
            != new.statuses@[j].word(),
        !mentions(d.added@, "status:"@ + old.statuses@[i].id@),
        !mentions(d.removed@, "status:"@ + old.statuses@[i].id@),
{
    let key = "status:"@ + old.statuses@[i].id@;
    assert(is_last(told(*old, Kind::Status), i));
    assert(is_last(told(*new, Kind::Status), j));
    last_is_summarized(*old, Kind::Status, i);
    last_is_summarized(*new, Kind::Status, j);
    listed_means_mentioned(d.changed@, changed_keys(summary(*old), summary(*new)), key);
    listed_means_mentioned(d.added@, new_keys(summary(*old), summary(*new)), key);
    listed_means_mentioned(d.removed@, new_keys(summary(*new), summary(*old)), key);
}

/// Where both packs define a shader, it is listed as changed exactly if the two definitions hash apart.
pub proof fn edits_of_shaders_are_listed(old: &ContentPack, new: &ContentPack, d: PackDiff, i: int, j: int)
    requires
        call_ensures(PackDiff::between, (old, new), d),
        0 <= i < old.shaders@.len(),
        0 <= j < new.shaders@.len(),
        old.shaders@[i].id@ == new.shaders@[j].id@,
        forall|k: int|
            i < k < old.shaders@.len() ==> (#[trigger] old.shaders@[k]).id@ != old.shaders@[i].id@,
        forall|k: int|
            j < k < new.shaders@.len() ==> (#[trigger] new.shaders@[k]).id@ != new.shaders@[j].id@,
    ensures
        mentions(d.changed@, "shader:"@ + old.shaders@[i].id@) <==> old.shaders@[i].word()
            != new.shaders@[j].word(),
        !mentions(d.added@, "shader:"@ + old.shaders@[i].id@),
        !mentions(d.removed@, "shader:"@ + old.shaders@[i].id@),
{
    let key = "shader:"@ + old.shaders@[i].id@;
    assert(is_last(told(*old, Kind::Shader), i));
    assert(is_last(told(*new, Kind::Shader), j));
    last_is_summarized(*old, Kind::Shader, i);
    last_is_summarized(*new, Kind::Shader, j);
    listed_means_mentioned(d.changed@, changed_keys(summary(*old), summary(*new)), key);
    listed_means_mentioned(d.added@, new_keys(summary(*old), summary(*new)), key);
    listed_means_mentioned(d.removed@, new_keys(summary(*new), summary(*old)), key);
}

} // verus!
