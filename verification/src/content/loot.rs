//! Loot tables — named, weighted drop pools, as hot-reloadable data.
//!
//! Mobs, missions, and death-drops all reference a [`LootTableDef`] by
//! [`crate::content::ids::LootTableId`] instead of carrying an inline drop list. That gives
//! the designer one place to retune the whole economy live ("the boss table feels
//! stingy") and lets several sources share a table. Drops are the backbone of the
//! "kill -> items spill out" mechanic.
//!
//! ## Determinism
//!
//! [`LootTableDef::roll`] takes an explicit `seed` and uses a tiny inline splitmix64
//! generator. There is **no wall-clock time and no global/thread RNG** anywhere in
//! this crate — the authority feeds in a per-event deterministic seed (e.g. derived
//! from the kill's tick + entity ids) so every node that replays the event computes
//! the *same* drops. That is mandatory for a lockstep-ish 10k-player simulation: loot
//! must be reproducible, not a local dice roll.

use crate::content::ids::{ItemId, LootTableId};
use crate::scalar::{zero, Scalar};
use vstd::prelude::*;

verus! {

/// One weighted entry in a loot table. On a successful roll it yields a random count
/// in `[min, max]` of `item`. `weight` is relative within the table (not a 0..1
/// probability), so adding a rare entry does not require re-normalizing the others.
#[derive(Debug, Clone)]
pub struct LootEntry {
    pub item: ItemId,
    /// Relative selection weight. Higher = more likely. Must be > 0 to ever drop.
    pub weight: Scalar,
    /// Minimum quantity granted when this entry is selected.
    pub min: u16,
    /// Maximum quantity granted when this entry is selected.
    pub max: u16,
    /// Extra weight granted as the killer's "magic find" / level scaling rises; the
    /// sim folds this in before rolling so rarer items skew toward higher rolls.
    pub rarity_bonus: Scalar,
}

/// A named loot pool. `rolls` independent selections are made; each can hit a
/// different entry, so one table can drop several stacks at once.
#[derive(Debug, Clone)]
pub struct LootTableDef {
    pub id: LootTableId,
    pub name: String,
    pub entries: Vec<LootEntry>,
    /// How many independent weighted selections to perform per invocation.
    pub rolls: u8,
    /// Per-level multiplier applied to dropped quantities, so the same table scales
    /// from the lowlands to the deep hollows without a second table.
    pub level_scaling: Scalar,
}

/// The state of the splitmix64 generator after one step.
pub open spec fn advanced(state: u64) -> u64 {
    state.wrapping_add(0x9E37_79B9_7F4A_7C15)
}

/// The number that the splitmix64 generator gives out in a state.
pub open spec fn mixed(state: u64) -> u64 {
    let a = (state ^ (state >> 30u64)).wrapping_mul(0xBF58_476D_1CE4_E5B9);
    let b = (a ^ (a >> 27u64)).wrapping_mul(0x94D0_49BB_1331_11EB);
    b ^ (b >> 31u64)
}

/// splitmix64: a tiny, fast, fully-deterministic generator. Advances `state` and returns a
/// well-mixed 64-bit value.
pub fn next_u64(state: &mut u64) -> (r: u64)
    ensures
        *final(state) == advanced(*old(state)),
        r == mixed(*final(state)),
{
    *state = state.wrapping_add(0x9E37_79B9_7F4A_7C15);
    let z: u64 = *state;
    let a: u64 = (z ^ (z >> 30u64)).wrapping_mul(0xBF58_476D_1CE4_E5B9);
    let b: u64 = (a ^ (a >> 27u64)).wrapping_mul(0x94D0_49BB_1331_11EB);
    b ^ (b >> 31u64)
}

/// The first entry with a weight whose running sum lies above the pick, among those from
/// `from` on.
pub open spec fn chosen(entries: Seq<LootEntry>, sums: Seq<Scalar>, pick: Scalar, from: int) -> Option<
    int,
>
    decreases sums.len() - from,
{
    if from < 0 || from >= sums.len() {
        None
    } else if entries[from].can_drop() && pick.below(sums[from]) {
        Some(from)
    } else {
        chosen(entries, sums, pick, from + 1)
    }
}

impl LootEntry {
    /// Whether the entry has the weight that it takes to drop at all.
    pub open spec fn can_drop(self) -> bool {
        (Scalar { bits: 0 }).below(self.weight)
    }

    /// Whether the entry has the weight that it takes to drop at all: its own, before any
    /// bonus, has to be above zero.
    pub fn is_weighted(&self) -> (r: bool)
        ensures
            r == self.can_drop(),
    {
        zero().lt(self.weight)
    }

    /// How much more than the least quantity an entry can grant.
    pub open spec fn span(self) -> int {
        if self.max > self.min {
            self.max - self.min
        } else {
            0
        }
    }

    /// The quantity that a selected entry grants, drawn in a generator state, and the
    /// state after the draw; an entry of fixed quantity draws nothing.
    pub open spec fn quantity(self, state: u64) -> (int, u64) {
        if self.span() == 0 {
            (self.min as int, state)
        } else {
            let next = advanced(state);
            (self.min + mixed(next) as int % (self.span() + 1), next)
        }
    }

    fn draw_quantity(&self, state: &mut u64) -> (r: u16)
        ensures
            (r as int, *final(state)) == self.quantity(*old(state)),
    {
        let span: u16 = if self.max > self.min {
            self.max - self.min
        } else {
            0
        };
        let extra: u16 = if span == 0 {
            0
        } else {
            (next_u64(state) % (span as u64 + 1)) as u16
        };
        self.min + extra
    }
}

impl LootEntry {
    /// `w` is the entry's effective, non-negative weight: `weight + rarity_bonus` as `plus` adds
    /// them, and nothing for an entry that has no weight of its own.
    pub open spec fn weighs<A: Fn(Scalar, Scalar) -> Scalar>(self, plus: A, w: Scalar) -> bool {
        if self.can_drop() {
            exists|sum: Scalar| #[trigger]
                call_ensures(plus, (self.weight, self.rarity_bonus), sum) && w == sum.floored(
                    Scalar { bits: 0 },
                )
        } else {
            w == (Scalar { bits: 0 })
        }
    }
}

/// What has been summed up before the `i`-th entry.
pub open spec fn sum_before(sums: Seq<Scalar>, i: int) -> Scalar {
    if 0 < i <= sums.len() {
        sums[i - 1]
    } else {
        Scalar { bits: 0 }
    }
}

/// The `i`-th running sum is the one before it and the entry's weight, as `plus` adds them.
pub open spec fn adds_up<A: Fn(Scalar, Scalar) -> Scalar>(
    entry: LootEntry,
    plus: A,
    sums: Seq<Scalar>,
    i: int,
) -> bool {
    exists|w: Scalar|
        entry.weighs(plus, w) && #[trigger] call_ensures(plus, (sum_before(sums, i), w), sums[i])
}

/// `sums` are the running sums of the entries' weights, in order.
pub open spec fn sums_up<A: Fn(Scalar, Scalar) -> Scalar>(
    entries: Seq<LootEntry>,
    plus: A,
    sums: Seq<Scalar>,
) -> bool {
    &&& sums.len() == entries.len()
    &&& forall|i: int| 0 <= i < sums.len() ==> adds_up(#[trigger] entries[i], plus, sums, i)
}

/// The table's total weight.
pub open spec fn total_weight(sums: Seq<Scalar>) -> Scalar {
    sum_before(sums, sums.len() as int)
}

/// `out` are drops that `rolls` selections, made from a generator state on, come to. Each draws
/// a 24-bit number, scales it to the total weight with `scale`, and takes the first entry
/// whose running sum lies above it.
pub open spec fn rolled<S: Fn(u64, Scalar) -> Scalar>(
    entries: Seq<LootEntry>,
    sums: Seq<Scalar>,
    scale: S,
    state: u64,
    rolls: nat,
    out: Seq<(Seq<char>, u16)>,
) -> bool
    decreases rolls,
{
    if rolls == 0 {
        out.len() == 0
    } else {
        let next = advanced(state);
        exists|pick: Scalar| #[trigger]
            call_ensures(scale, (mixed(next) >> 40u64, total_weight(sums)), pick) && match chosen(
                entries,
                sums,
                pick,
                0,
            ) {
                None => rolled(entries, sums, scale, next, (rolls - 1) as nat, out),
                Some(i) => {
                    let (count, after) = entries[i].quantity(next);
                    if count > 0 {
                        &&& out.len() > 0
                        &&& out[0] == (entries[i].item@, count as u16)
                        &&& rolled(entries, sums, scale, after, (rolls - 1) as nat, out.skip(1))
                    } else {
                        rolled(entries, sums, scale, after, (rolls - 1) as nat, out)
                    }
                },
            }
    }
}

/// A drop list by item name and quantity.
pub open spec fn named(list: Seq<(ItemId, u16)>) -> Seq<(Seq<char>, u16)> {
    Seq::new(list.len(), |i: int| (list[i].0@, list[i].1))
}

/// The index of the first weighted entry whose running sum lies above the pick.
fn choose_entry(entries: &Vec<LootEntry>, sums: &Vec<Scalar>, pick: Scalar) -> (r: Option<usize>)
    requires
        sums@.len() == entries@.len(),
    ensures
        match r {
            Some(i) => i < sums@.len() && chosen(entries@, sums@, pick, 0) == Some(i as int),
            None => chosen(entries@, sums@, pick, 0) is None,
        },
{
    let mut i: usize = 0;
    while i < sums.len()
        invariant
            i <= sums.len(),
            sums@.len() == entries@.len(),
            chosen(entries@, sums@, pick, 0) == chosen(entries@, sums@, pick, i as int),
        decreases sums.len() - i,
    {
        if entries[i].is_weighted() && pick.lt(sums[i]) {
            return Some(i);
        }
        i = i + 1;
    }
    None
}

impl LootTableDef {
    /// The running sums of the entries' effective weights, in order; `plus` adds.
    pub fn running_sums<A: Fn(Scalar, Scalar) -> Scalar>(&self, plus: &A) -> (r: Vec<Scalar>)
        requires
            forall|x: Scalar, y: Scalar| call_requires(*plus, (x, y)),
        ensures
            sums_up(self.entries@, *plus, r@),
    {
        let mut sums: Vec<Scalar> = Vec::new();
        let mut sum = zero();
        let mut i: usize = 0;
        while i < self.entries.len()
            invariant
                i <= self.entries.len(),
                forall|x: Scalar, y: Scalar| call_requires(*plus, (x, y)),
                sums@.len() == i,
                sum == sum_before(sums@, i as int),
                forall|k: int|
                    0 <= k < i ==> adds_up(#[trigger] self.entries@[k], *plus, sums@, k),
            decreases self.entries.len() - i,
        {
            let ghost was = sums@;
            let entry = &self.entries[i];
            let w = if entry.is_weighted() {
                plus(entry.weight, entry.rarity_bonus).max(zero())
            } else {
                zero()
            };
            assert(entry.weighs(*plus, w));
            let before = sum;
            sum = plus(before, w);
            sums.push(sum);
            proof {
                assert(call_ensures(*plus, (sum_before(sums@, i as int), w), sums@[i as int]));
                assert forall|k: int| 0 <= k < i + 1 implies adds_up(
                    #[trigger] self.entries@[k],
                    *plus,
                    sums@,
                    k,
                ) by {
                    if k < i {
                        let v = choose|v: Scalar|
                            self.entries@[k].weighs(*plus, v) && #[trigger] call_ensures(
                                *plus,
                                (sum_before(was, k), v),
                                was[k],
                            );
                        assert(adds_up(self.entries@[k], *plus, was, k));
                        assert(sum_before(was, k) == sum_before(sums@, k));
                        assert(call_ensures(*plus, (sum_before(sums@, k), v), sums@[k]));
                    }
                }
            }
            i = i + 1;
        }
        sums
    }

    /// Roll this table deterministically. Returns the `(item, count)` drops for one
    /// kill/mission/death event. Same `seed` + same table = same result on every node. NO
    /// time, NO global rng — purely a function of the inputs.
    ///
    /// `weight` and `rarity_bonus` are summed per entry to pick a winner; counts are drawn
    /// uniformly in `[min, max]`. `plus` adds, and `scale` scales a 24-bit draw, as a fraction
    /// of 2^24, to the total weight. `level_scaling` is intentionally *not* applied here (the
    /// sim multiplies by the actual victim/killer level it knows about) so this stays a pure,
    /// side-effect-free selection.
    pub fn roll<A: Fn(Scalar, Scalar) -> Scalar, S: Fn(u64, Scalar) -> Scalar>(
        &self,
        seed: u64,
        plus: &A,
        scale: &S,
    ) -> (r: Vec<(ItemId, u16)>)
        requires
            forall|x: Scalar, y: Scalar| call_requires(*plus, (x, y)),
            forall|draw: u64, total: Scalar| call_requires(*scale, (draw, total)),
        ensures
            exists|sums: Seq<Scalar>| #[trigger]
                sums_up(self.entries@, *plus, sums) && if sums.len() == 0 || total_weight(
                    sums,
                ).at_most(Scalar { bits: 0 }) {
                    r@.len() == 0
                } else {
                    rolled(self.entries@, sums, *scale, seed, self.rolls as nat, named(r@))
                },
    {
        let sums = self.running_sums(plus);
        if sums.len() == 0 {
            return Vec::new();
        }
        let total = sums[sums.len() - 1];
        if total.le(zero()) {
            return Vec::new();
        }
        self.draws(seed, &sums, scale)
    }

    fn draws<S: Fn(u64, Scalar) -> Scalar>(&self, seed: u64, sums: &Vec<Scalar>, scale: &S) -> (r: Vec<
        (ItemId, u16),
    >)
        requires
            sums@.len() == self.entries@.len(),
            sums@.len() > 0,
            forall|draw: u64, total: Scalar| call_requires(*scale, (draw, total)),
        ensures
            rolled(self.entries@, sums@, *scale, seed, self.rolls as nat, named(r@)),
    {
        let total = sums[sums.len() - 1];
        let mut out: Vec<(ItemId, u16)> = Vec::new();
        let mut state: u64 = seed;
        let mut left: u8 = self.rolls;
        let ghost entries = self.entries@;
        proof {
            assert forall|tail: Seq<(Seq<char>, u16)>| #[trigger]
                rolled(entries, sums@, *scale, state, left as nat, tail) implies rolled(
                entries,
                sums@,
                *scale,
                seed,
                self.rolls as nat,
                named(out@) + tail,
            ) by {
                assert(named(out@) + tail =~= tail);
            }
        }
        while left > 0
            invariant
                entries == self.entries@,
                sums@.len() == entries.len(),
                sums@.len() > 0,
                total == total_weight(sums@),
                forall|draw: u64, total: Scalar| call_requires(*scale, (draw, total)),
                forall|tail: Seq<(Seq<char>, u16)>| #[trigger]
                    rolled(entries, sums@, *scale, state, left as nat, tail) ==> rolled(
                        entries,
                        sums@,
                        *scale,
                        seed,
                        self.rolls as nat,
                        named(out@) + tail,
                    ),
            decreases left,
        {
            let ghost so_far = named(out@);
            let ghost was = state;
            let draw: u64 = next_u64(&mut state) >> 40u64;
            let ghost next = state;
            let pick = scale(draw, total);
            assert(call_ensures(*scale, (draw, total_weight(sums@)), pick));
            match choose_entry(&self.entries, sums, pick) {
                Some(i) => {
                    let entry = &self.entries[i];
                    let count: u16 = entry.draw_quantity(&mut state);
                    if count > 0 {
                        out.push((entry.item.clone(), count));
                        assert(named(out@) =~= so_far.push((entry.item@, count)));
                        assert forall|tail: Seq<(Seq<char>, u16)>| #[trigger]
                            rolled(entries, sums@, *scale, state, (left - 1) as nat, tail) implies rolled(
                            entries,
                            sums@,
                            *scale,
                            seed,
                            self.rolls as nat,
                            named(out@) + tail,
                        ) by {
                            let longer = seq![(entry.item@, count)] + tail;
                            assert(longer.skip(1) =~= tail);
                            assert(rolled(entries, sums@, *scale, was, left as nat, longer));
                            assert(so_far + longer =~= named(out@) + tail);
                        }
                    } else {
                        assert forall|tail: Seq<(Seq<char>, u16)>| #[trigger]
                            rolled(entries, sums@, *scale, state, (left - 1) as nat, tail) implies rolled(
                            entries,
                            sums@,
                            *scale,
                            seed,
                            self.rolls as nat,
                            named(out@) + tail,
                        ) by {
                            assert(rolled(entries, sums@, *scale, was, left as nat, tail));
                        }
                    }
                },
                None => {
                    assert forall|tail: Seq<(Seq<char>, u16)>| #[trigger]
                        rolled(entries, sums@, *scale, state, (left - 1) as nat, tail) implies rolled(
                        entries,
                        sums@,
                        *scale,
                        seed,
                        self.rolls as nat,
                        named(out@) + tail,
                    ) by {
                        assert(rolled(entries, sums@, *scale, was, left as nat, tail));
                    }
                },
            }
            left = left - 1;
        }
        proof {
            let none: Seq<(Seq<char>, u16)> = seq![];
            assert(rolled(entries, sums@, *scale, state, 0, none));
            assert(named(out@) + none =~= named(out@));
        }
        out
    }
}

/// Whether the drop is one that the entry can grant.
pub open spec fn granted_by(entry: LootEntry, drop: (Seq<char>, u16)) -> bool {
    &&& drop.0 == entry.item@
    &&& 0 < drop.1
    &&& entry.min <= drop.1
    &&& entry.min <= entry.max ==> drop.1 <= entry.max
}

/// Whatever the seed, a roll drops at most as many stacks as there are selections, and
/// each stack is of an entry of the table, in a quantity that the entry allows.
pub proof fn drops_come_from_the_table<S: Fn(u64, Scalar) -> Scalar>(
    entries: Seq<LootEntry>,
    sums: Seq<Scalar>,
    scale: S,
    state: u64,
    rolls: nat,
    out: Seq<(Seq<char>, u16)>,
)
    requires
        sums.len() == entries.len(),
        rolled(entries, sums, scale, state, rolls, out),
    ensures
        out.len() <= rolls,
        forall|d: int|
            0 <= d < out.len() ==> exists|i: int|
                0 <= i < entries.len() && granted_by(entries[i], #[trigger] out[d]),
    decreases rolls,
{
    if rolls > 0 {
        let next = advanced(state);
        let (pick, i, count, after) = selected(entries, sums, scale, state, rolls, out);
        if i is None {
            drops_come_from_the_table(entries, sums, scale, next, (rolls - 1) as nat, out);
        } else if count > 0 {
            let rest = out.skip(1);
            drops_come_from_the_table(entries, sums, scale, after, (rolls - 1) as nat, rest);
            assert forall|d: int| 0 <= d < out.len() implies exists|i: int|
                0 <= i < entries.len() && granted_by(entries[i], #[trigger] out[d]) by {
                if d == 0 {
                    assert(granted_by(entries[i->0], out[0]));
                } else {
                    assert(out[d] == rest[d - 1]);
                }
            }
        } else {
            drops_come_from_the_table(entries, sums, scale, after, (rolls - 1) as nat, out);
        }
    }
}

/// The first selection of a roll: its pick, the entry taken, the quantity granted and the
/// generator state after it.
proof fn selected<S: Fn(u64, Scalar) -> Scalar>(
    entries: Seq<LootEntry>,
    sums: Seq<Scalar>,
    scale: S,
    state: u64,
    rolls: nat,
    out: Seq<(Seq<char>, u16)>,
) -> (r: (Scalar, Option<int>, int, u64))
    requires
        rolls > 0,
        sums.len() == entries.len(),
        rolled(entries, sums, scale, state, rolls, out),
    ensures
        ({
            let next = advanced(state);
            let (pick, i, count, after) = r;
            &&& call_ensures(scale, (mixed(next) >> 40u64, total_weight(sums)), pick)
            &&& chosen(entries, sums, pick, 0) == i
            &&& i matches Some(k) ==> {
                &&& 0 <= k < entries.len()
                &&& entries[k].can_drop() && pick.below(sums[k])
                &&& forall|j: int|
                    0 <= j < k && (#[trigger] entries[j]).can_drop() ==> !pick.below(sums[j])
                &&& (count, after) == entries[k].quantity(next)
                &&& count > 0 ==> out.len() > 0 && out[0] == (entries[k].item@, count as u16)
                    && rolled(entries, sums, scale, after, (rolls - 1) as nat, out.skip(1))
                &&& count <= 0 ==> rolled(entries, sums, scale, after, (rolls - 1) as nat, out)
            }
            &&& i is None ==> rolled(entries, sums, scale, next, (rolls - 1) as nat, out)
        }),
{
    let next = advanced(state);
    let pick = choose|pick: Scalar| #[trigger]
        call_ensures(scale, (mixed(next) >> 40u64, total_weight(sums)), pick) && match chosen(
            entries,
            sums,
            pick,
            0,
        ) {
            None => rolled(entries, sums, scale, next, (rolls - 1) as nat, out),
            Some(i) => {
                let (count, after) = entries[i].quantity(next);
                if count > 0 {
                    &&& out.len() > 0
                    &&& out[0] == (entries[i].item@, count as u16)
                    &&& rolled(entries, sums, scale, after, (rolls - 1) as nat, out.skip(1))
                } else {
                    rolled(entries, sums, scale, after, (rolls - 1) as nat, out)
                }
            },
        };
    chosen_is_first(entries, sums, pick, 0);
    match chosen(entries, sums, pick, 0) {
        None => (pick, None, 0, next),
        Some(i) => (pick, Some(i), entries[i].quantity(next).0, entries[i].quantity(next).1),
    }
}

proof fn chosen_is_first(entries: Seq<LootEntry>, sums: Seq<Scalar>, pick: Scalar, from: int)
    requires
        0 <= from,
    ensures
        chosen(entries, sums, pick, from) matches Some(i) ==> from <= i < sums.len()
            && entries[i].can_drop() && pick.below(sums[i]) && forall|j: int|
            from <= j < i && (#[trigger] entries[j]).can_drop() ==> !pick.below(sums[j]),
    decreases sums.len() - from,
{
    if from < sums.len() {
        chosen_is_first(entries, sums, pick, from + 1);
    }
}

/// The entry adds nothing to the table's weight: it has none of its own, nothing has been summed
/// up to it, or no more than up to an earlier weighted entry.
pub open spec fn weightless(entries: Seq<LootEntry>, sums: Seq<Scalar>, i: int) -> bool {
    ||| !entries[i].can_drop()
    ||| sums[i].at_most(Scalar { bits: 0 })
    ||| exists|j: int|
        0 <= j < i && (#[trigger] entries[j]).can_drop() && sums[i].at_most(sums[j])
}

/// An item that only weightless entries grant never drops, whatever the seed, as long as no draw
/// scales to less than zero.
pub proof fn weightless_entry_never_drops<S: Fn(u64, Scalar) -> Scalar>(
    entries: Seq<LootEntry>,
    sums: Seq<Scalar>,
    scale: S,
    state: u64,
    rolls: nat,
    out: Seq<(Seq<char>, u16)>,
    item: Seq<char>,
)
    requires
        sums.len() == entries.len(),
        rolled(entries, sums, scale, state, rolls, out),
        forall|draw: u64, pick: Scalar| #[trigger]
            call_ensures(scale, (draw, total_weight(sums)), pick) ==> !pick.below(
                Scalar { bits: 0 },
            ),
        forall|i: int|
            0 <= i < entries.len() && (#[trigger] entries[i]).item@ == item ==> weightless(
                entries,
                sums,
                i,
            ),
    ensures
        forall|d: int| 0 <= d < out.len() ==> (#[trigger] out[d]).0 != item,
    decreases rolls,
{
    if rolls > 0 {
        let next = advanced(state);
        let less = (rolls - 1) as nat;
        let (pick, i, count, after) = selected(entries, sums, scale, state, rolls, out);
        if i is None {
            weightless_entry_never_drops(entries, sums, scale, next, less, out, item);
        } else if count > 0 {
            let rest = out.skip(1);
            weightless_entry_never_drops(entries, sums, scale, after, less, rest, item);
            assert(entries[i->0].item@ != item);
            assert forall|d: int| 0 <= d < out.len() implies (#[trigger] out[d]).0 != item by {
                if d > 0 {
                    assert(out[d] == rest[d - 1]);
                }
            }
        } else {
            weightless_entry_never_drops(entries, sums, scale, after, less, out, item);
        }
    }
}

/// A roll is reproducible: the same table and the same seed drop the same, wherever adding and
/// scaling agree.
pub proof fn rolls_are_reproducible<A: Fn(Scalar, Scalar) -> Scalar, S: Fn(u64, Scalar) -> Scalar>(
    entries: Seq<LootEntry>,
    plus: A,
    scale: S,
    seed: u64,
    rolls: nat,
    here: (Seq<Scalar>, Seq<(Seq<char>, u16)>),
    there: (Seq<Scalar>, Seq<(Seq<char>, u16)>),
)
    requires
        forall|x: Scalar, y: Scalar, a: Scalar, b: Scalar| #[trigger]
            call_ensures(plus, (x, y), a) && #[trigger] call_ensures(plus, (x, y), b) ==> a == b,
        forall|d: u64, t: Scalar, a: Scalar, b: Scalar| #[trigger]
            call_ensures(scale, (d, t), a) && #[trigger] call_ensures(scale, (d, t), b) ==> a == b,
        sums_up(entries, plus, here.0),
        sums_up(entries, plus, there.0),
        rolled(entries, here.0, scale, seed, rolls, here.1),
        rolled(entries, there.0, scale, seed, rolls, there.1),
    ensures
        here.0 == there.0,
        here.1 == there.1,
{
    sums_agree(entries, plus, here.0, there.0, entries.len() as int);
    assert(here.0 =~= there.0);
    rolls_agree(entries, here.0, scale, seed, rolls, here.1, there.1);
}

proof fn sums_agree<A: Fn(Scalar, Scalar) -> Scalar>(
    entries: Seq<LootEntry>,
    plus: A,
    x: Seq<Scalar>,
    y: Seq<Scalar>,
    n: int,
)
    requires
        forall|x: Scalar, y: Scalar, a: Scalar, b: Scalar| #[trigger]
            call_ensures(plus, (x, y), a) && #[trigger] call_ensures(plus, (x, y), b) ==> a == b,
        sums_up(entries, plus, x),
        sums_up(entries, plus, y),
        0 <= n <= entries.len(),
    ensures
        forall|i: int| 0 <= i < n ==> #[trigger] x[i] == y[i],
    decreases n,
{
    if n > 0 {
        let i = n - 1;
        sums_agree(entries, plus, x, y, i);
        assert(sum_before(x, i) == sum_before(y, i));
        let e = entries[i];
        assert(adds_up(e, plus, x, i) && adds_up(e, plus, y, i));
        let v = choose|w: Scalar|
            e.weighs(plus, w) && #[trigger] call_ensures(plus, (sum_before(x, i), w), x[i]);
        let w = choose|w: Scalar|
            e.weighs(plus, w) && #[trigger] call_ensures(plus, (sum_before(y, i), w), y[i]);
        assert(e.weighs(plus, v) && e.weighs(plus, w));
        assert(v == w);
    }
}

proof fn rolls_agree<S: Fn(u64, Scalar) -> Scalar>(
    entries: Seq<LootEntry>,
    sums: Seq<Scalar>,
    scale: S,
    state: u64,
    rolls: nat,
    x: Seq<(Seq<char>, u16)>,
    y: Seq<(Seq<char>, u16)>,
)
    requires
        forall|d: u64, t: Scalar, a: Scalar, b: Scalar| #[trigger]
            call_ensures(scale, (d, t), a) && #[trigger] call_ensures(scale, (d, t), b) ==> a == b,
        sums.len() == entries.len(),
        rolled(entries, sums, scale, state, rolls, x),
        rolled(entries, sums, scale, state, rolls, y),
    ensures
        x == y,
    decreases rolls,
{
    if rolls > 0 {
        let next = advanced(state);
        let less = (rolls - 1) as nat;
        let (p, i, count, after) = selected(entries, sums, scale, state, rolls, x);
        let (q, j, _, _) = selected(entries, sums, scale, state, rolls, y);
        assert(p == q);
        if i is None {
            rolls_agree(entries, sums, scale, next, less, x, y);
        } else if count > 0 {
            rolls_agree(entries, sums, scale, after, less, x.skip(1), y.skip(1));
            assert(x =~= seq![x[0]] + x.skip(1));
            assert(y =~= seq![y[0]] + y.skip(1));
        } else {
            rolls_agree(entries, sums, scale, after, less, x, y);
        }
    } else {
        assert(x =~= y);
    }
}

/// A pick takes the first weighted entry whose running sum lies above it, and none only where there
/// is no such entry.
pub proof fn a_pick_takes_the_first_above_it(
    entries: Seq<LootEntry>,
    sums: Seq<Scalar>,
    pick: Scalar,
    from: int,
)
    requires
        0 <= from <= sums.len() == entries.len(),
    ensures
        match chosen(entries, sums, pick, from) {
            Some(i) => {
                &&& from <= i < sums.len()
                &&& (Scalar { bits: 0 }).below(entries[i].weight)
                &&& pick.below(sums[i])
                &&& forall|j: int|
                    from <= j < i && (Scalar { bits: 0 }).below((#[trigger] entries[j]).weight)
                        ==> !pick.below(sums[j])
            },
            None => forall|j: int|
                from <= j < sums.len() && (Scalar { bits: 0 }).below((#[trigger] entries[j]).weight)
                    ==> !pick.below(sums[j]),
        },
    decreases sums.len() - from,
{
    if from < sums.len() {
        a_pick_takes_the_first_above_it(entries, sums, pick, from + 1);
    }
}

/// A selected entry grants its least quantity, its most, or something between, and never draws where
/// the two are one.
pub proof fn quantities_stay_in_range(entry: LootEntry, state: u64)
    ensures
        entry.min <= entry.quantity(state).0,
        entry.min <= entry.max ==> entry.quantity(state).0 <= entry.max,
        entry.max <= entry.min ==> entry.quantity(state) == (entry.min as int, state),
        entry.min < entry.max ==> {
            let next = ((state + 0x9E37_79B9_7F4A_7C15) % 0x1_0000_0000_0000_0000) as u64;
            &&& entry.quantity(state).1 == next
            &&& entry.quantity(state).0 == entry.min + mixed(next) as int % (entry.max - entry.min
                + 1)
        },
{
}

proof fn drops_are_granted<S: Fn(u64, Scalar) -> Scalar>(
    entries: Seq<LootEntry>,
    sums: Seq<Scalar>,
    scale: S,
    state: u64,
    rolls: nat,
    out: Seq<(Seq<char>, u16)>,
    d: int,
) -> (i: int)
    requires
        sums.len() == entries.len(),
        rolled(entries, sums, scale, state, rolls, out),
        0 <= d < out.len(),
    ensures
        0 <= i < entries.len(),
        out[d].0 == entries[i].item@,
        (Scalar { bits: 0 }).below(entries[i].weight),
        0 < out[d].1,
        entries[i].min <= out[d].1,
        entries[i].min <= entries[i].max ==> out[d].1 <= entries[i].max,
    decreases rolls,
{
    let next = advanced(state);
    let (pick, i, count, after) = selected(entries, sums, scale, state, rolls, out);
    if i is None {
        drops_are_granted(entries, sums, scale, next, (rolls - 1) as nat, out, d)
    } else {
        a_pick_takes_the_first_above_it(entries, sums, pick, 0);
        if count > 0 {
            if d == 0 {
                i->0
            } else {
                assert(out.skip(1)[d - 1] == out[d]);
                drops_are_granted(entries, sums, scale, after, (rolls - 1) as nat, out.skip(1), d - 1)
            }
        } else {
            drops_are_granted(entries, sums, scale, after, (rolls - 1) as nat, out, d)
        }
    }
}

/// Whatever the seed, a table rolls at most as many stacks as it has selections, and every stack is
/// of an entry that has weight, in a quantity between the entry's least and most.
pub proof fn tables_drop_what_they_hold<A: Fn(Scalar, Scalar) -> Scalar, S: Fn(u64, Scalar) -> Scalar>(
    table: &LootTableDef,
    seed: u64,
    plus: &A,
    scale: &S,
    r: Vec<(ItemId, u16)>,
    d: int,
)
    requires
        call_ensures(LootTableDef::roll::<A, S>, (table, seed, plus, scale), r),
        0 <= d < r@.len(),
    ensures
        r@.len() <= table.rolls,
        exists|i: int|
            {
                &&& 0 <= i < table.entries@.len()
                &&& (#[trigger] table.entries@[i]).item@ == r@[d].0@
                &&& (Scalar { bits: 0 }).below(table.entries@[i].weight)
                &&& 0 < r@[d].1
                &&& table.entries@[i].min <= r@[d].1
                &&& table.entries@[i].min <= table.entries@[i].max ==> r@[d].1 <= table.entries@[i].max
            },
{
    let sums = choose|sums: Seq<Scalar>| #[trigger]
        sums_up(table.entries@, *plus, sums) && if sums.len() == 0 || total_weight(sums).at_most(
            Scalar { bits: 0 },
        ) {
            r@.len() == 0
        } else {
            rolled(table.entries@, sums, *scale, seed, table.rolls as nat, named(r@))
        };
    drops_come_from_the_table(table.entries@, sums, *scale, seed, table.rolls as nat, named(r@));
    let i = drops_are_granted(
        table.entries@,
        sums,
        *scale,
        seed,
        table.rolls as nat,
        named(r@),
        d,
    );
    assert(named(r@)[d] == (r@[d].0@, r@[d].1));
}

/// One selection from a table of one weighted entry of fixed quantity drops just that, wherever the
/// pick falls below the entry's sum.
pub proof fn the_only_entry_is_dropped<A: Fn(Scalar, Scalar) -> Scalar, S: Fn(u64, Scalar) -> Scalar>(
    table: &LootTableDef,
    seed: u64,
    plus: &A,
    scale: &S,
    r: Vec<(ItemId, u16)>,
)
    requires
        call_ensures(LootTableDef::roll::<A, S>, (table, seed, plus, scale), r),
        table.rolls == 1,
        table.entries@.len() == 1,
        (Scalar { bits: 0 }).below(table.entries@[0].weight),
        table.entries@[0].min == table.entries@[0].max,
        table.entries@[0].min > 0,
        forall|x: Scalar, y: Scalar, z: Scalar| #[trigger]
            call_ensures(*plus, (x, y), z) ==> (Scalar { bits: 0 }).below(z),
        forall|draw: u64, total: Scalar, z: Scalar| #[trigger]
            call_ensures(*scale, (draw, total), z) ==> z.below(total),
    ensures
        r@.len() == 1,
        r@[0].0@ == table.entries@[0].item@,
        r@[0].1 == table.entries@[0].min,
{
    let entries = table.entries@;
    let sums = choose|sums: Seq<Scalar>| #[trigger]
        sums_up(table.entries@, *plus, sums) && if sums.len() == 0 || total_weight(sums).at_most(
            Scalar { bits: 0 },
        ) {
            r@.len() == 0
        } else {
            rolled(table.entries@, sums, *scale, seed, table.rolls as nat, named(r@))
        };
    assert(adds_up(entries[0], *plus, sums, 0));
    assert((Scalar { bits: 0 }).below(sums[0]));
    assert(total_weight(sums) == sums[0]);
    let (pick, i, count, after) = selected(entries, sums, *scale, seed, 1, named(r@));
    reveal_with_fuel(chosen, 2);
    reveal_with_fuel(rolled, 2);
    let next = advanced(seed);
    assert(named(r@).len() == 1);
    assert(named(r@)[0] == (r@[0].0@, r@[0].1));
}

/// Each running sum adds one entry's weight to the one before: its own weight and its bonus, never
/// below zero, or nothing if the entry has no weight of its own.
pub proof fn running_sums_add_each_weight<A: Fn(Scalar, Scalar) -> Scalar>(
    table: &LootTableDef,
    plus: &A,
    sums: Vec<Scalar>,
    so_far: Scalar,
    i: int,
)
    requires
        call_ensures(LootTableDef::running_sums::<A>, (table, plus), sums),
        0 <= i < table.entries@.len(),
        so_far == if i == 0 {
            Scalar { bits: 0 }
        } else {
            sums@[i - 1]
        },
    ensures
        sums@.len() == table.entries@.len(),
        exists|w: Scalar|
            {
                &&& #[trigger] call_ensures(
                    *plus,
                    (so_far, w),
                    sums@[i],
                )
                &&& !w.below(Scalar { bits: 0 })
                &&& !(Scalar { bits: 0 }).below(table.entries@[i].weight) ==> w == (Scalar { bits: 0 })
                &&& (Scalar { bits: 0 }).below(table.entries@[i].weight) ==> exists|own: Scalar|
                    #[trigger] call_ensures(
                        *plus,
                        (table.entries@[i].weight, table.entries@[i].rarity_bonus),
                        own,
                    ) && ((Scalar { bits: 0 }).at_most(own) ==> w == own)
            },
{
    let entry = table.entries@[i];
    assert(adds_up(entry, *plus, sums@, i));
    let w = choose|w: Scalar|
        entry.weighs(*plus, w) && #[trigger] call_ensures(*plus, (sum_before(sums@, i), w), sums@[i]);
    assert(call_ensures(*plus, (so_far, w), sums@[i]));
}

/// The generator is splitmix64: it steps by the golden gamma, and gives out the state mixed by two
/// multiplications and three shifts.
pub proof fn draws_are_splitmix(state: &mut u64, r: u64)
    requires
        call_ensures(next_u64, (state,), r),
    ensures
        *final(state) == (*old(state) + 0x9E37_79B9_7F4A_7C15) % 0x1_0000_0000_0000_0000,
        ({
            let z = *final(state);
            let a = (((z ^ (z >> 30u64)) * 0xBF58_476D_1CE4_E5B9) % 0x1_0000_0000_0000_0000) as u64;
            let b = (((a ^ (a >> 27u64)) * 0x94D0_49BB_1331_11EB) % 0x1_0000_0000_0000_0000) as u64;
            r == b ^ (b >> 31u64)
        }),
{
}

} // verus!
