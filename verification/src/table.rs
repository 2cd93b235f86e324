//! An ordered map from names to values.
//!
//! Entries are kept in ascending order of their keys' UTF-8 bytes, so that two maps with
//! the same contents list them in the same order, on every machine.

use crate::text::bytes_determine_text;
use vstd::prelude::*;
use vstd::utf8::encode_utf8;

verus! {

/// Byte strings in dictionary order: `a` comes before `b`.
pub open spec fn before(a: Seq<u8>, b: Seq<u8>) -> bool {
    exists|k: int| #[trigger] splits(a, b, k)
}

/// `a` and `b` agree up to `k`, where `a` ends or has the smaller byte.
pub open spec fn splits(a: Seq<u8>, b: Seq<u8>, k: int) -> bool {
    &&& 0 <= k <= a.len()
    &&& k < b.len()
    &&& forall|i: int| 0 <= i < k ==> a[i] == b[i]
    &&& k < a.len() ==> a[k] < b[k]
}

pub proof fn before_irreflexive(a: Seq<u8>)
    ensures
        !before(a, a),
{
}

pub proof fn before_transitive(a: Seq<u8>, b: Seq<u8>, c: Seq<u8>)
    requires
        before(a, b),
        before(b, c),
    ensures
        before(a, c),
{
    let k = choose|k: int| splits(a, b, k);
    let m = choose|m: int| splits(b, c, m);
    if k <= m {
        assert(splits(a, c, k));
    } else {
        assert(splits(a, c, m));
    }
}

/// How two byte strings stand to each other.
#[derive(Debug, Clone, Copy, PartialEq, Eq, Structural)]
pub enum Place {
    Before,
    Same,
    After,
}

/// Places `a` in dictionary order against `b`.
pub fn place(a: &[u8], b: &[u8]) -> (r: Place)
    ensures
        r == Place::Before <==> before(a@, b@),
        r == Place::Same <==> a@ == b@,
        r == Place::After <==> before(b@, a@),
{
    let mut i: usize = 0;
    while i < a.len() && i < b.len()
        invariant
            i <= a.len(),
            i <= b.len(),
            forall|j: int| 0 <= j < i ==> a@[j] == b@[j],
        decreases a.len() - i,
    {
        if a[i] < b[i] {
            proof {
                assert(splits(a@, b@, i as int));
                first_difference(a@, b@, i as int);
            }
            return Place::Before;
        }
        if b[i] < a[i] {
            proof {
                assert(splits(b@, a@, i as int));
                first_difference(b@, a@, i as int);
            }
            return Place::After;
        }
        i = i + 1;
    }
    if i < b.len() {
        proof {
            assert(splits(a@, b@, i as int));
            first_difference(a@, b@, i as int);
        }
        Place::Before
    } else if i < a.len() {
        proof {
            assert(splits(b@, a@, i as int));
            first_difference(b@, a@, i as int);
        }
        Place::After
    } else {
        assert(a@ =~= b@);
        Place::Same
    }
}

proof fn first_difference(a: Seq<u8>, b: Seq<u8>, k: int)
    requires
        splits(a, b, k),
    ensures
        a != b,
        !before(b, a),
{
    if before(b, a) {
        let m = choose|m: int| splits(b, a, m);
        assert(k == m || k < m || m < k);
    }
}

/// A map from names to values.
#[derive(Debug, Clone)]
pub struct NameMap<V> {
    pub entries: Vec<(String, V)>,
}

impl<V> NameMap<V> {
    /// The bytes that the entry at `i` is ordered by.
    pub open spec fn key_bytes(self, i: int) -> Seq<u8> {
        encode_utf8(self.entries@[i].0@)
    }

    /// The entries are in strictly ascending key order.
    pub open spec fn well_formed(self) -> bool {
        forall|i: int, j: int|
            0 <= i < j < self.entries@.len() ==> before(
                #[trigger] self.key_bytes(i),
                #[trigger] self.key_bytes(j),
            )
    }

    /// Whether some entry has this key.
    pub open spec fn has(self, key: Seq<char>) -> bool {
        exists|i: int| 0 <= i < self.entries@.len() && #[trigger] self.entries@[i].0@ == key
    }

    /// The index of the entry with this key.
    pub open spec fn index_of(self, key: Seq<char>) -> int {
        choose|i: int| 0 <= i < self.entries@.len() && #[trigger] self.entries@[i].0@ == key
    }

    /// Where `key` stands or would have to be put: everything below comes before it, and
    /// everything from there on does not.
    fn seek(&self, key: &str) -> (r: (usize, bool))
        requires
            self.well_formed(),
        ensures
            r.0 <= self.entries@.len(),
            forall|i: int| 0 <= i < r.0 ==> before(#[trigger] self.key_bytes(i), encode_utf8(key@)),
            r.1 ==> r.0 < self.entries@.len() && self.entries@[r.0 as int].0@ == key@,
            !r.1 ==> forall|i: int|
                r.0 <= i < self.entries@.len() ==> before(
                    encode_utf8(key@),
                    #[trigger] self.key_bytes(i),
                ),
    {
        let mut lo: usize = 0;
        let mut hi: usize = self.entries.len();
        while lo < hi
            invariant
                self.well_formed(),
                lo <= hi <= self.entries@.len(),
                forall|i: int|
                    0 <= i < lo ==> before(#[trigger] self.key_bytes(i), encode_utf8(key@)),
                forall|i: int|
                    hi <= i < self.entries@.len() ==> before(
                        encode_utf8(key@),
                        #[trigger] self.key_bytes(i),
                    ),
            decreases hi - lo,
        {
            let mid: usize = lo + (hi - lo) / 2;
            match place(self.entries[mid].0.as_str().as_bytes(), key.as_bytes()) {
                Place::Before => {
                    proof {
                        assert forall|i: int| 0 <= i < mid + 1 implies before(
                            #[trigger] self.key_bytes(i),
                            encode_utf8(key@),
                        ) by {
                            if i < mid {
                                before_transitive(
                                    self.key_bytes(i),
                                    self.key_bytes(mid as int),
                                    encode_utf8(key@),
                                );
                            }
                        }
                    }
                    lo = mid + 1;
                },
                Place::Same => {
                    proof {
                        bytes_determine_text(self.entries@[mid as int].0@, key@);
                        assert forall|i: int| 0 <= i < mid implies before(
                            #[trigger] self.key_bytes(i),
                            encode_utf8(key@),
                        ) by {
                            assert(before(self.key_bytes(i), self.key_bytes(mid as int)));
                        }
                    }
                    return (mid, true);
                },
                Place::After => {
                    proof {
                        assert forall|i: int| mid <= i < self.entries@.len() implies before(
                            encode_utf8(key@),
                            #[trigger] self.key_bytes(i),
                        ) by {
                            if mid < i {
                                before_transitive(
                                    encode_utf8(key@),
                                    self.key_bytes(mid as int),
                                    self.key_bytes(i),
                                );
                            }
                        }
                    }
                    hi = mid;
                },
            }
        }
        (lo, false)
    }

    /// A key stands at one index only.
    pub proof fn keys_distinct(self, i: int, j: int)
        requires
            self.well_formed(),
            0 <= i < self.entries@.len(),
            0 <= j < self.entries@.len(),
            self.entries@[i].0@ == self.entries@[j].0@,
        ensures
            i == j,
    {
        before_irreflexive(self.key_bytes(i));
        if i < j {
            assert(before(self.key_bytes(i), self.key_bytes(j)));
        }
        if j < i {
            assert(before(self.key_bytes(j), self.key_bytes(i)));
        }
    }

    pub proof fn index_of_is(self, i: int)
        requires
            self.well_formed(),
            0 <= i < self.entries@.len(),
        ensures
            self.has(self.entries@[i].0@),
            self.index_of(self.entries@[i].0@) == i,
    {
        let key = self.entries@[i].0@;
        assert(self.has(key));
        self.keys_distinct(i, self.index_of(key));
    }

    pub fn new() -> (r: NameMap<V>)
        ensures
            r.well_formed(),
            r@ == Map::<Seq<char>, V>::empty(),
            r.entries@ == Seq::<(String, V)>::empty(),
    {
        let r = NameMap { entries: Vec::new() };
        assert(r@ =~= Map::<Seq<char>, V>::empty());
        r
    }

    /// The value of the entry with this key.
    pub fn get(&self, key: &str) -> (r: Option<&V>)
        requires
            self.well_formed(),
        ensures
            match r {
                Some(v) => self@.contains_key(key@) && *v == self@[key@],
                None => !self@.contains_key(key@),
            },
    {
        let (at, found) = self.seek(key);
        if found {
            proof {
                self.index_of_is(at as int);
            }
            Some(&self.entries[at].1)
        } else {
            proof {
                self.absent(key@, at as int);
            }
            None
        }
    }

    proof fn absent(self, key: Seq<char>, at: int)
        requires
            0 <= at <= self.entries@.len(),
            forall|i: int| 0 <= i < at ==> before(#[trigger] self.key_bytes(i), encode_utf8(key)),
            forall|i: int|
                at <= i < self.entries@.len() ==> before(
                    encode_utf8(key),
                    #[trigger] self.key_bytes(i),
                ),
        ensures
            !self.has(key),
    {
        before_irreflexive(encode_utf8(key));
        if self.has(key) {
            let i = self.index_of(key);
            assert(self.key_bytes(i) == encode_utf8(key));
        }
    }

    pub fn contains(&self, key: &str) -> (r: bool)
        requires
            self.well_formed(),
        ensures
            r == self@.contains_key(key@),
    {
        self.get(key).is_some()
    }

    /// Puts the value under the key, in place of what stood there.
    pub fn insert(&mut self, key: String, value: V)
        requires
            old(self).well_formed(),
        ensures
            final(self).well_formed(),
            final(self)@ == old(self)@.insert(key@, value),
    {
        let ghost was = *self;
        let ghost name = key@;
        let (at, found) = self.seek(key.as_str());
        if found {
            proof {
                was.index_of_is(at as int);
            }
            self.entries.set(at, (key, value));
            proof {
                assert forall|i: int| 0 <= i < self.entries@.len() implies #[trigger] self.key_bytes(
                    i,
                ) == was.key_bytes(i) by {}
                assert(self.well_formed());
                self.same_keys_updated(was, at as int, name, value);
            }
        } else {
            proof {
                was.absent(name, at as int);
            }
            self.entries.insert(at, (key, value));
            proof {
                let bytes = encode_utf8(name);
                assert forall|i: int, j: int| 0 <= i < j < self.entries@.len() implies before(
                    #[trigger] self.key_bytes(i),
                    #[trigger] self.key_bytes(j),
                ) by {
                    if i < at {
                        assert(self.key_bytes(i) == was.key_bytes(i));
                    }
                    if j < at {
                        assert(self.key_bytes(j) == was.key_bytes(j));
                    }
                    if i > at {
                        assert(self.key_bytes(i) == was.key_bytes(i - 1));
                    }
                    if j > at {
                        assert(self.key_bytes(j) == was.key_bytes(j - 1));
                    }
                }
                self.grown(was, at as int, name, value);
            }
        }
    }

    proof fn same_keys_updated(self, was: NameMap<V>, at: int, name: Seq<char>, value: V)
        requires
            self.well_formed(),
            was.well_formed(),
            0 <= at < was.entries@.len(),
            was.entries@[at].0@ == name,
            self.entries@.len() == was.entries@.len(),
            self.entries@[at].0@ == name,
            self.entries@[at].1 == value,
            forall|i: int|
                0 <= i < was.entries@.len() && i != at ==> self.entries@[i] == was.entries@[i],
        ensures
            self@ == was@.insert(name, value),
    {
        assert forall|k: Seq<char>| self.has(k) <==> (k == name || was.has(k)) by {
            if self.has(k) {
                let i = self.index_of(k);
                assert(was.entries@[i].0@ == k);
            }
            if was.has(k) {
                let i = was.index_of(k);
                assert(self.entries@[i].0@ == k);
            }
            assert(self.entries@[at].0@ == name);
        }
        assert forall|k: Seq<char>| self.has(k) implies self@[k] == was@.insert(name, value)[k] by {
            let i = self.index_of(k);
            self.index_of_is(i);
            was.index_of_is(i);
            self.index_of_is(at);
        }
        assert(self@ =~= was@.insert(name, value));
    }

    proof fn grown(self, was: NameMap<V>, at: int, name: Seq<char>, value: V)
        requires
            self.well_formed(),
            was.well_formed(),
            !was.has(name),
            0 <= at <= was.entries@.len(),
            self.entries@.len() == was.entries@.len() + 1,
            self.entries@[at].0@ == name,
            self.entries@[at].1 == value,
            forall|i: int| 0 <= i < at ==> self.entries@[i] == was.entries@[i],
            forall|i: int| at < i < self.entries@.len() ==> self.entries@[i] == was.entries@[i - 1],
        ensures
            self@ == was@.insert(name, value),
    {
        assert forall|k: Seq<char>| self.has(k) <==> (k == name || was.has(k)) by {
            if self.has(k) {
                let i = self.index_of(k);
                if i < at {
                    assert(was.entries@[i].0@ == k);
                }
                if i > at {
                    assert(was.entries@[i - 1].0@ == k);
                }
            }
            if was.has(k) {
                let i = was.index_of(k);
                if i < at {
                    assert(self.entries@[i].0@ == k);
                } else {
                    assert(self.entries@[i + 1].0@ == k);
                }
            }
            assert(self.entries@[at].0@ == name);
        }
        assert forall|k: Seq<char>| self.has(k) implies self@[k] == was@.insert(name, value)[k] by {
            let i = self.index_of(k);
            self.index_of_is(i);
            self.index_of_is(at);
            if i < at {
                was.index_of_is(i);
            }
            if i > at {
                was.index_of_is(i - 1);
            }
        }
        assert(self@ =~= was@.insert(name, value));
    }
}

impl<V> View for NameMap<V> {
    type V = Map<Seq<char>, V>;

    open spec fn view(&self) -> Map<Seq<char>, V> {
        Map::new(|k: Seq<char>| self.has(k), |k: Seq<char>| self.entries@[self.index_of(k)].1)
    }
}

/// What was put under a name is found there, and what stands under any other name is found as before.
pub proof fn what_is_put_is_found<V>(
    map: &mut NameMap<V>,
    key: String,
    value: V,
    name: &str,
    before: Option<&V>,
    after: Option<&V>,
)
    requires
        call_ensures(NameMap::<V>::get, (old(map), name), before),
        call_ensures(NameMap::<V>::insert, (map, key, value), ()),
        call_ensures(NameMap::<V>::get, (final(map), name), after),
    ensures
        name@ == key@ ==> after == Some(&value),
        name@ != key@ ==> after == before,
{
}

/// A fresh map holds nothing under any name.
pub proof fn fresh_maps_are_empty<V>(map: NameMap<V>, name: &str, r: Option<&V>, held: bool)
    requires
        call_ensures(NameMap::<V>::new, (), map),
        call_ensures(NameMap::<V>::get, (&map, name), r),
        call_ensures(NameMap::<V>::contains, (&map, name), held),
    ensures
        r is None,
        !held,
{
}

} // verus!
