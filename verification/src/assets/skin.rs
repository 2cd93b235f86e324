//! Skinning: bind a mesh's vertices to a skeleton's bones.
//!
//! Procedural meshes have no authored skin weights, so they are derived: each vertex is
//! weighted to the few bones that weigh most on it (nearest first, by a weight that the
//! caller computes from the distance to the bone's bind position).

use crate::scalar::{zero, Scalar};
use vstd::prelude::*;

verus! {

/// Up to this many bone influences per vertex (the GPU-standard 4).
pub const MAX_INFLUENCES: usize = 4;

/// A bone and how much it weighs on a vertex.
pub type Influence = (u16, Scalar);

/// No influence at all.
pub open spec fn unbound() -> Seq<Influence> {
    let none = (0u16, Scalar { bits: 0 });
    seq![none, none, none, none]
}

/// The first of the lightest influences among the first `n` kept.
pub open spec fn lightest(best: Seq<Influence>, n: int) -> int
    decreases n,
{
    if n <= 1 {
        0
    } else {
        let rest = lightest(best, n - 1);
        if best[n - 1].1.below(best[rest].1) {
            n - 1
        } else {
            rest
        }
    }
}

/// The influences kept once a bone has been weighed: it takes the place of the lightest
/// one if it is heavier.
pub open spec fn kept(best: Seq<Influence>, bone: u16, weight: Scalar) -> Seq<Influence> {
    let at = lightest(best, 4);
    if best[at].1.below(weight) {
        best.update(at, (bone, weight))
    } else {
        best
    }
}

/// The influences kept of the first `n` bones.
pub open spec fn strongest(weights: Seq<Scalar>, n: int) -> Seq<Influence>
    decreases n,
{
    if n <= 0 {
        unbound()
    } else {
        kept(strongest(weights, n - 1), (n - 1) as u16, weights[n - 1])
    }
}

/// Keeps the four influences that weigh most.
pub fn strongest_influences(weights: &Vec<Scalar>) -> (r: [Influence; 4])
    requires
        weights@.len() <= 0x1_0000,
    ensures
        r@ == strongest(weights@, weights@.len() as int),
{
    let none: Influence = (0, zero());
    let mut best: [Influence; 4] = [none, none, none, none];
    assert(best@ =~= unbound());
    let mut bone: usize = 0;
    while bone < weights.len()
        invariant
            bone <= weights.len() <= 0x1_0000,
            best@ == strongest(weights@, bone as int),
        decreases weights.len() - bone,
    {
        let weight = weights[bone];
        let mut at: usize = 0;
        let mut k: usize = 1;
        while k < 4
            invariant
                1 <= k <= 4,
                at < 4,
                best@.len() == 4,
                at == lightest(best@, k as int),
            decreases 4 - k,
        {
            if best[k].1.lt(best[at].1) {
                at = k;
            }
            k = k + 1;
        }
        if best[at].1.lt(weight) {
            best[at] = (bone as u16, weight);
        }
        bone = bone + 1;
    }
    best
}

/// The bones of a row of influences.
pub open spec fn bones_of(row: Seq<Influence>) -> Seq<u16> {
    seq![row[0].0, row[1].0, row[2].0, row[3].0]
}

/// The weights of a row of influences.
pub open spec fn weights_of(row: Seq<Influence>) -> Seq<Scalar> {
    seq![row[0].1, row[1].1, row[2].1, row[3].1]
}

/// `weights` is what every bone weighs on the vertex.
pub open spec fn weighs<W: Fn([Scalar; 3], [Scalar; 3]) -> Scalar>(
    vertex: [Scalar; 3],
    bones: Seq<[Scalar; 3]>,
    weigh: W,
    weights: Seq<Scalar>,
) -> bool {
    &&& weights.len() == bones.len()
    &&& forall|b: int|
        0 <= b < bones.len() ==> call_ensures(weigh, (vertex, bones[b]), #[trigger] weights[b])
}

/// The vertex is bound to the bones that weigh most on it, with their weights normalised.
pub open spec fn is_bound<
    W: Fn([Scalar; 3], [Scalar; 3]) -> Scalar,
    N: Fn([Scalar; 4]) -> [Scalar; 4],
>(
    vertex: [Scalar; 3],
    bones: Seq<[Scalar; 3]>,
    weigh: W,
    normalise: N,
    joints: [u16; 4],
    shares: [Scalar; 4],
) -> bool {
    exists|weights: Seq<Scalar>, raw: [Scalar; 4]|
        {
            &&& #[trigger] weighs(vertex, bones, weigh, weights)
            &&& joints@ == bones_of(strongest(weights, bones.len() as int))
            &&& raw@ == weights_of(strongest(weights, bones.len() as int))
            &&& #[trigger] call_ensures(normalise, (raw,), shares)
        }
}

fn bind_vertex<W: Fn([Scalar; 3], [Scalar; 3]) -> Scalar, N: Fn([Scalar; 4]) -> [Scalar; 4]>(
    vertex: [Scalar; 3],
    bones: &Vec<[Scalar; 3]>,
    weigh: &W,
    normalise: &N,
) -> (r: ([u16; 4], [Scalar; 4]))
    requires
        bones@.len() <= 0x1_0000,
        forall|a: [Scalar; 3], b: [Scalar; 3]| call_requires(*weigh, (a, b)),
        forall|raw: [Scalar; 4]| call_requires(*normalise, (raw,)),
    ensures
        is_bound(vertex, bones@, *weigh, *normalise, r.0, r.1),
{
    let mut weights: Vec<Scalar> = Vec::new();
    let mut b: usize = 0;
    while b < bones.len()
        invariant
            b <= bones.len(),
            weights@.len() == b,
            forall|x: [Scalar; 3], y: [Scalar; 3]| call_requires(*weigh, (x, y)),
            forall|k: int| 0 <= k < b ==> call_ensures(*weigh, (vertex, bones@[k]), #[trigger] weights@[k]),
        decreases bones.len() - b,
    {
        weights.push(weigh(vertex, bones[b]));
        b = b + 1;
    }
    let best = strongest_influences(&weights);
    let raw = [best[0].1, best[1].1, best[2].1, best[3].1];
    let joints = [best[0].0, best[1].0, best[2].0, best[3].0];
    let shares = normalise(raw);
    proof {
        assert(weighs(vertex, bones@, *weigh, weights@));
        assert(joints@ =~= bones_of(best@));
        assert(raw@ =~= weights_of(best@));
    }
    (joints, shares)
}

/// Compute per-vertex bone indices + weights binding `positions` to the bones at these
/// bind positions. Returns `(joints, weights)` parallel to `positions`; each row has 4
/// entries (zero-weighted padding where a vertex has fewer than 4 nearby bones). Returns
/// empty vectors for an empty skeleton (the caller then treats the mesh as static/rigid).
pub fn skin_mesh<W: Fn([Scalar; 3], [Scalar; 3]) -> Scalar, N: Fn([Scalar; 4]) -> [Scalar; 4]>(
    positions: &Vec<[Scalar; 3]>,
    bones: &Vec<[Scalar; 3]>,
    weigh: &W,
    normalise: &N,
) -> (r: (Vec<[u16; 4]>, Vec<[Scalar; 4]>))
    requires
        bones@.len() <= 0x1_0000,
        forall|a: [Scalar; 3], b: [Scalar; 3]| call_requires(*weigh, (a, b)),
        forall|raw: [Scalar; 4]| call_requires(*normalise, (raw,)),
    ensures
        if bones@.len() == 0 {
            r.0@.len() == 0 && r.1@.len() == 0
        } else {
            &&& r.0@.len() == positions@.len()
            &&& r.1@.len() == positions@.len()
            &&& forall|v: int|
                0 <= v < positions@.len() ==> is_bound(
                    positions@[v],
                    bones@,
                    *weigh,
                    *normalise,
                    #[trigger] r.0@[v],
                    #[trigger] r.1@[v],
                )
        },
{
    let mut joints: Vec<[u16; 4]> = Vec::new();
    let mut weights: Vec<[Scalar; 4]> = Vec::new();
    if bones.len() == 0 {
        return (joints, weights);
    }
    let mut v: usize = 0;
    while v < positions.len()
        invariant
            v <= positions.len(),
            joints@.len() == v,
            weights@.len() == v,
            bones@.len() <= 0x1_0000,
            forall|a: [Scalar; 3], b: [Scalar; 3]| call_requires(*weigh, (a, b)),
            forall|raw: [Scalar; 4]| call_requires(*normalise, (raw,)),
            forall|k: int|
                0 <= k < v ==> is_bound(
                    positions@[k],
                    bones@,
                    *weigh,
                    *normalise,
                    #[trigger] joints@[k],
                    #[trigger] weights@[k],
                ),
        decreases positions.len() - v,
    {
        let (row, shares) = bind_vertex(positions[v], bones, weigh, normalise);
        joints.push(row);
        weights.push(shares);
        v = v + 1;
    }
    (joints, weights)
}

proof fn lightest_is_lightest(best: Seq<Influence>, n: int)
    requires
        1 <= n <= best.len(),
        forall|k: int| 0 <= k < best.len() ==> !(#[trigger] best[k]).1.nan(),
    ensures
        0 <= lightest(best, n) < n,
        forall|k: int| 0 <= k < n ==> best[lightest(best, n)].1.at_most((#[trigger] best[k]).1),
    decreases n,
{
    if n > 1 {
        lightest_is_lightest(best, n - 1);
    }
}

/// No bone that is left out weighs more than one that is kept: whatever the order of the
/// bones, the four influences of a vertex are its four strongest.
pub proof fn strongest_are_kept(weights: Seq<Scalar>, n: int)
    requires
        0 <= n <= weights.len(),
        n <= 0x1_0000,
        forall|b: int| 0 <= b < weights.len() ==> !(#[trigger] weights[b]).nan(),
    ensures
        strongest(weights, n).len() == 4,
        forall|k: int| 0 <= k < 4 ==> !(#[trigger] strongest(weights, n)[k]).1.nan(),
        forall|b: int, k: int|
            #![trigger weights[b], strongest(weights, n)[k]]
            0 <= b < n && 0 <= k < 4 ==> strongest(weights, n).contains((b as u16, weights[b]))
                || weights[b].at_most(strongest(weights, n)[k].1),
    decreases n,
{
    if n > 0 {
        strongest_are_kept(weights, n - 1);
        let was = strongest(weights, n - 1);
        let now = strongest(weights, n);
        let at = lightest(was, 4);
        lightest_is_lightest(was, 4);
        let fresh = ((n - 1) as u16, weights[n - 1]);
        assert forall|b: int, k: int|
            #![trigger weights[b], now[k]]
            0 <= b < n && 0 <= k < 4 implies now.contains((b as u16, weights[b]))
            || weights[b].at_most(now[k].1) by {
            if b == n - 1 {
                if was[at].1.below(weights[n - 1]) {
                    assert(now[at] == fresh);
                } else {
                    assert(was[at].1.at_most(was[k].1));
                }
            } else {
                let mine = (b as u16, weights[b]);
                if was.contains(mine) {
                    let m = choose|m: int| 0 <= m < was.len() && was[m] == mine;
                    if was[at].1.below(weights[n - 1]) {
                        if m == at {
                            assert(was[at].1.at_most(was[k].1));
                        } else {
                            assert(now[m] == mine);
                        }
                    }
                } else {
                    assert(weights[b].at_most(was[k].1));
                    assert(weights[b].at_most(was[at].1));
                }
            }
        }
    }
}

proof fn slots_are_paired(weights: Seq<Scalar>, n: int)
    requires
        0 <= n <= weights.len(),
        n <= 0x1_0000,
    ensures
        strongest(weights, n).len() == 4,
        forall|k: int|
            0 <= k < 4 ==> {
                let slot = #[trigger] strongest(weights, n)[k];
                ||| slot.0 < n && slot.1 == weights[slot.0 as int] && (Scalar { bits: 0 }).below(
                    slot.1,
                )
                ||| slot.0 == 0 && slot.1.bits == 0
            },
        forall|k: int, l: int|
            0 <= k < l < 4 && (#[trigger] strongest(weights, n)[k]).1.bits != 0 && (
            #[trigger] strongest(weights, n)[l]).1.bits != 0 ==> strongest(weights, n)[k].0
                != strongest(weights, n)[l].0,
    decreases n,
{
    if n > 0 {
        slots_are_paired(weights, n - 1);
        let was = strongest(weights, n - 1);
        lightest_is_lightest(was, 4);
    }
}

/// A joint and the weight beside it belong together. Of the raw weights that are shared out, each
/// is what the bone in its own slot weighs on the vertex, or the slot is empty; no bone is bound
/// twice; and where the weights are numbers, a bone that is left out weighs no more than any that
/// is bound. So the bone that weighs most holds the slot of the heaviest weight.
pub proof fn slots_belong_together<
    W: Fn([Scalar; 3], [Scalar; 3]) -> Scalar,
    N: Fn([Scalar; 4]) -> [Scalar; 4],
>(
    vertex: [Scalar; 3],
    bones: Seq<[Scalar; 3]>,
    weigh: W,
    normalise: N,
    joints: [u16; 4],
    shares: [Scalar; 4],
)
    requires
        bones.len() <= 0x1_0000,
        is_bound(vertex, bones, weigh, normalise, joints, shares),
    ensures
        exists|w: Seq<Scalar>, raw: [Scalar; 4]|
            {
                &&& #[trigger] weighs(vertex, bones, weigh, w)
                &&& #[trigger] call_ensures(normalise, (raw,), shares)
                &&& w.len() == bones.len()
                &&& forall|b: int|
                    0 <= b < bones.len() ==> call_ensures(weigh, (vertex, bones[b]), #[trigger] w[b])
                &&& forall|k: int|
                    0 <= k < 4 ==> {
                        ||| (#[trigger] joints@[k]) < bones.len() && raw@[k] == w[joints@[k] as int]
                            && (Scalar { bits: 0 }).below(raw@[k])
                        ||| joints@[k] == 0 && raw@[k].bits == 0
                    }
                &&& forall|k: int, l: int|
                    0 <= k < l < 4 && raw@[k].bits != 0 && raw@[l].bits != 0
                        ==> #[trigger] joints@[k] != #[trigger] joints@[l]
                &&& (forall|b: int| 0 <= b < w.len() ==> !(#[trigger] w[b]).nan()) ==> forall|b: int|
                    0 <= b < w.len() ==> (exists|m: int|
                        0 <= m < 4 && #[trigger] joints@[m] == b && raw@[m] == w[b]) || (forall|k: int|
                        0 <= k < 4 ==> (#[trigger] w[b]).at_most(#[trigger] raw@[k]))
            },
{
    let (w, raw) = choose|weights: Seq<Scalar>, raw: [Scalar; 4]|
        {
            &&& #[trigger] weighs(vertex, bones, weigh, weights)
            &&& joints@ == bones_of(strongest(weights, bones.len() as int))
            &&& raw@ == weights_of(strongest(weights, bones.len() as int))
            &&& #[trigger] call_ensures(normalise, (raw,), shares)
        };
    let n = bones.len() as int;
    let row = strongest(w, n);
    slots_are_paired(w, n);
    assert forall|k: int| 0 <= k < 4 implies joints@[k] == row[k].0 && raw@[k] == row[k].1 by {}
    if forall|b: int| 0 <= b < w.len() ==> !(#[trigger] w[b]).nan() {
        strongest_are_kept(w, n);
        assert forall|b: int| 0 <= b < w.len() implies (exists|m: int|
            0 <= m < 4 && #[trigger] joints@[m] == b && raw@[m] == w[b]) || (forall|k: int|
            0 <= k < 4 ==> (#[trigger] w[b]).at_most(#[trigger] raw@[k])) by {
            let mine = (b as u16, w[b]);
            if row.contains(mine) {
                let m = choose|m: int| 0 <= m < row.len() && row[m] == mine;
                assert(joints@[m] == b && raw@[m] == w[b]);
            } else {
                assert forall|k: int| 0 <= k < 4 implies (#[trigger] w[b]).at_most(
                    #[trigger] raw@[k],
                ) by {
                    assert(w[b].at_most(row[k].1));
                }
            }
        }
    }
    assert(weighs(vertex, bones, weigh, w) && call_ensures(normalise, (raw,), shares));
}

} // verus!
