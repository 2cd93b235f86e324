//! The spell VM — the data model behind "make your own spells".
//!
//! A [`SpellDef`] is a small tree of [`EffectOp`]s. The interpreter lives in
//! the simulation; this crate only defines the *shape* of a spell so that new
//! spells (and player-authored ones) need **no code deploy** — they are just new
//! trees over the same fixed primitive ops.
//!
//! Design intent:
//! - Every op reuses a sim primitive (raycast, projectile, sphere query, damage,
//!   status, impulse...). The op set is closed; creativity comes from composition.
//! - A [`SpellDef`] is pure data: it serializes, hashes, and hot-reloads.
//! - Casting validates `mana_cost`, `cast_time`, and `cooldown` server-side, so a
//!   custom spell can never be cheaper or faster than its definition allows.
//! - Player-authored spells are the same `SpellDef` type, gated by a [`Budget`] the
//!   tech tree raises as a player advances novice -> expert.

use crate::content::ids::{ElementId, MobId, SpellId, StatusId};
use crate::content::sheet::spell::{shown, shown_alike};
use crate::scalar::{dec, decimal, Scalar};
use vstd::prelude::*;

verus! {

/// A complete spell: metadata plus the root effect graph.
#[derive(Debug, Clone)]
pub struct SpellDef {
    pub id: SpellId,
    pub name: String,
    /// Short flavour / tooltip; cosmetic.
    pub description: String,
    /// Primary element, used for resist/affinity math and default VFX colouring.
    pub element: ElementId,
    /// Mana required to begin the cast. Validated by the authority.
    pub mana_cost: Scalar,
    /// Seconds of channel before the effect fires. 0 = instant.
    pub cast_time: Scalar,
    /// Seconds before this spell can be cast again.
    pub cooldown: Scalar,
    /// If true the spell can be held to keep channeling (beams, auras), spending
    /// `mana_cost` per second instead of once.
    pub channeled: bool,
    /// How spell power scales with caster stats (see [`Scaling`]).
    pub scaling: Scaling,
    /// The root of the effect graph, evaluated when the cast fires.
    pub root: EffectOp,
    /// Authoring cost, used to gate player-made spells against their unlocked
    /// [`Budget`]. Recomputed from `root` by [`SpellDef::complexity`].
    pub author_cost: u32,
}

/// How a caster's attributes amplify a spell. Final magnitude = base * (1 + sum of
/// attribute contributions). Kept as plain coefficients so it is data-tweakable.
#[derive(Debug, Clone)]
pub struct Scaling {
    pub power: Scalar,
    pub focus: Scalar,
    pub agility: Scalar,
    pub level: Scalar,
}

/// A target selected by a shape op and fed to downstream effect ops.
#[derive(Debug, Clone, Copy, PartialEq)]
pub enum Target {
    /// The caster themselves.
    SelfCaster,
    /// A point in the world (impact location, aim point).
    Point([Scalar; 3]),
    /// An entity (by sim entity id). Stored as u32 to avoid a protocol dep cycle.
    Entity(u32),
}

/// Who a spell op is allowed to affect, evaluated against caster/target teams.
#[derive(Debug, Clone, Copy, PartialEq, Eq, Structural)]
pub enum Faction {
    Enemies,
    Allies,
    SelfOnly,
    All,
}

/// The closed set of primitive operations a spell is built from. The interpreter
/// in the simulation matches on these. Adding a *new* op is the rare case that needs a
/// code+binary change; everything else is composition.
#[derive(Debug)]
pub enum EffectOp {
    // ---- shape ops: select targets, then run `then` against each ----
    /// Instant ray from the caster's eye; first capsule/world hit becomes the
    /// target. Rifles and beams are just this.
    Ray {
        range: Scalar,
        /// Pierce N entities (0 = stop at first).
        pierce: u8,
        then: Box<EffectOp>,
    },
    /// A travelling projectile carrying `on_hit` as its continuation. Reuses the
    /// sim projectile system; on impact (or timeout) `on_hit` runs at the hit point.
    Projectile {
        speed: Scalar,
        gravity: Scalar,
        radius: Scalar,
        lifetime_s: Scalar,
        /// Homing strength toward the aim target (0 = dumb-fire).
        homing: Scalar,
        on_hit: Box<EffectOp>,
    },
    /// Sphere query around a target; runs `then` on each entity matching `faction`.
    Area {
        radius: Scalar,
        faction: Faction,
        /// Damage/effect falloff to the edge (1 = no falloff, 0 = none at edge).
        falloff: Scalar,
        then: Box<EffectOp>,
    },
    /// A cone in front of the caster (shotgun-like, breath weapons).
    Cone {
        range: Scalar,
        half_angle_rad: Scalar,
        faction: Faction,
        then: Box<EffectOp>,
    },
    /// Spawn a persistent field entity (fire patch, healing zone) that runs `tick`
    /// every `interval_s` for `duration_s` on entities inside `radius`.
    Field {
        radius: Scalar,
        duration_s: Scalar,
        interval_s: Scalar,
        faction: Faction,
        tick: Box<EffectOp>,
    },

    // ---- effect ops: mutate the world at the current target ----
    /// Deal damage. Element drives resist math; scales with caster + spell scaling.
    Damage { amount: Scalar, element: ElementId },
    /// Restore health.
    Heal { amount: Scalar },
    /// Grant temporary shield HP that absorbs before health.
    Shield { amount: Scalar, duration_s: Scalar },
    /// Apply a status effect instance (DoT, slow, burn, root, levitate...).
    ApplyStatus { status: StatusId, duration_s: Scalar, stacks: u8 },
    /// Push (+) or pull (-) the target relative to a point with `force`.
    Impulse { force: Scalar, vertical_bias: Scalar },
    /// Teleport / blink the caster (or target) by `distance` along aim, or to a point.
    Teleport { max_distance: Scalar, to_target: bool },
    /// Summon a mob under the caster's ownership for `duration_s`.
    Summon { mob: MobId, count: u8, duration_s: Scalar },
    /// Restore mana (siphon builds, mana potions expressed as spells).
    RestoreMana { amount: Scalar },
    /// Mark the target (for combos / tech synergies); pure data flag.
    Mark { tag: String, duration_s: Scalar },

    // ---- control ops: compose other ops ----
    /// Run each child in order, same tick.
    Sequence(Vec<EffectOp>),
    /// Run all children "simultaneously" (no ordering semantics).
    Parallel(Vec<EffectOp>),
    /// Wait `secs` (in sim ticks) before running `then`.
    Delay { secs: Scalar, then: Box<EffectOp> },
    /// Run `op` `count` times spaced `interval_s` apart.
    Repeat { count: u16, interval_s: Scalar, op: Box<EffectOp> },
    /// Run `then` with probability `chance` (deterministic per-cast seed in sim).
    Chance { chance: Scalar, then: Box<EffectOp> },
    /// Branch on whether the current target carries `tag` (set by `Mark`).
    IfMarked {
        tag: String,
        then: Box<EffectOp>,
        otherwise: Box<EffectOp>,
    },
    /// Does nothing (graph leaf / placeholder).
    Noop,
}

impl EffectOp {
    fn copied(&self) -> (r: EffectOp)
        ensures
            shown(r) == shown(*self),
        decreases self,
    {
        match self {
            EffectOp::Ray { range, pierce, then } => EffectOp::Ray { range: *range, pierce: *pierce, then: Box::new(then.copied()) },
            EffectOp::Projectile { speed, gravity, radius, lifetime_s, homing, on_hit } => EffectOp::Projectile { speed: *speed, gravity: *gravity, radius: *radius, lifetime_s: *lifetime_s, homing: *homing, on_hit: Box::new(on_hit.copied()) },
            EffectOp::Area { radius, faction, falloff, then } => EffectOp::Area { radius: *radius, faction: *faction, falloff: *falloff, then: Box::new(then.copied()) },
            EffectOp::Cone { range, half_angle_rad, faction, then } => EffectOp::Cone { range: *range, half_angle_rad: *half_angle_rad, faction: *faction, then: Box::new(then.copied()) },
            EffectOp::Field { radius, duration_s, interval_s, faction, tick } => EffectOp::Field { radius: *radius, duration_s: *duration_s, interval_s: *interval_s, faction: *faction, tick: Box::new(tick.copied()) },
            EffectOp::Damage { amount, element } => EffectOp::Damage { amount: *amount, element: element.clone() },
            EffectOp::Heal { amount } => EffectOp::Heal { amount: *amount },
            EffectOp::Shield { amount, duration_s } => EffectOp::Shield { amount: *amount, duration_s: *duration_s },
            EffectOp::ApplyStatus { status, duration_s, stacks } => EffectOp::ApplyStatus { status: status.clone(), duration_s: *duration_s, stacks: *stacks },
            EffectOp::Impulse { force, vertical_bias } => EffectOp::Impulse { force: *force, vertical_bias: *vertical_bias },
            EffectOp::Teleport { max_distance, to_target } => EffectOp::Teleport { max_distance: *max_distance, to_target: *to_target },
            EffectOp::Summon { mob, count, duration_s } => EffectOp::Summon { mob: mob.clone(), count: *count, duration_s: *duration_s },
            EffectOp::RestoreMana { amount } => EffectOp::RestoreMana { amount: *amount },
            EffectOp::Mark { tag, duration_s } => EffectOp::Mark { tag: tag.clone(), duration_s: *duration_s },
            EffectOp::Sequence(ops) => {
                let mut out: Vec<EffectOp> = Vec::new();
                let mut i: usize = 0;
                while i < ops.len()
                    invariant
                        i <= ops.len(),
                        ops@ == self.below(),
                        out@.len() == i,
                        forall|k: int| 0 <= k < i ==> shown(#[trigger] out@[k]) == shown(ops@[k]),
                    decreases ops.len() - i,
                {
                    proof {
                        self.below_is_smaller(i as int);
                    }
                    out.push(ops[i].copied());
                    i = i + 1;
                }
                let r = EffectOp::Sequence(out);
                proof {
                    shown_alike(r, *self, ops@.len());
                }
                r
            },
            EffectOp::Parallel(ops) => {
                let mut out: Vec<EffectOp> = Vec::new();
                let mut i: usize = 0;
                while i < ops.len()
                    invariant
                        i <= ops.len(),
                        ops@ == self.below(),
                        out@.len() == i,
                        forall|k: int| 0 <= k < i ==> shown(#[trigger] out@[k]) == shown(ops@[k]),
                    decreases ops.len() - i,
                {
                    proof {
                        self.below_is_smaller(i as int);
                    }
                    out.push(ops[i].copied());
                    i = i + 1;
                }
                let r = EffectOp::Parallel(out);
                proof {
                    shown_alike(r, *self, ops@.len());
                }
                r
            },
            EffectOp::Delay { secs, then } => EffectOp::Delay { secs: *secs, then: Box::new(then.copied()) },
            EffectOp::Repeat { count, interval_s, op } => EffectOp::Repeat { count: *count, interval_s: *interval_s, op: Box::new(op.copied()) },
            EffectOp::Chance { chance, then } => EffectOp::Chance { chance: *chance, then: Box::new(then.copied()) },
            EffectOp::IfMarked { tag, then, otherwise } => EffectOp::IfMarked { tag: tag.clone(), then: Box::new(then.copied()), otherwise: Box::new(otherwise.copied()) },
            EffectOp::Noop => EffectOp::Noop,
        }
    }
}

impl Clone for EffectOp {
    /// An op that says the same.
    fn clone(&self) -> (r: Self)
        ensures
            shown(r) == shown(*self),
    {
        self.copied()
    }
}

/// The authoring budget a player may spend on a custom spell. The tech tree raises
/// these as the player progresses, so novices craft simple spells and experts craft
/// elaborate multi-stage ones.
#[derive(Debug, Clone)]
pub struct Budget {
    pub max_complexity: u32,
    pub max_depth: u32,
    /// A floor on mana cost relative to complexity, so a player can't author a
    /// free nuke. The authority also recomputes a fair mana cost from complexity.
    pub min_mana_floor: Scalar,
}

impl EffectOp {
    /// What the op itself adds to a spell's complexity.
    pub open spec fn weight(self) -> nat {
        match self {
            EffectOp::Summon { .. } | EffectOp::Field { .. } => 5,
            EffectOp::Teleport { .. } | EffectOp::Shield { .. } => 3,
            EffectOp::Projectile { .. } | EffectOp::Area { .. } | EffectOp::Cone { .. } => 2,
            EffectOp::Noop => 0,
            _ => 1,
        }
    }

    /// The ops directly below this one, in order.
    pub open spec fn below(self) -> Seq<EffectOp> {
        match self {
            EffectOp::Ray { then, .. } => seq![*then],
            EffectOp::Area { then, .. } => seq![*then],
            EffectOp::Cone { then, .. } => seq![*then],
            EffectOp::Delay { then, .. } => seq![*then],
            EffectOp::Chance { then, .. } => seq![*then],
            EffectOp::Projectile { on_hit, .. } => seq![*on_hit],
            EffectOp::Field { tick, .. } => seq![*tick],
            EffectOp::Repeat { op, .. } => seq![*op],
            EffectOp::IfMarked { then, otherwise, .. } => seq![*then, *otherwise],
            EffectOp::Sequence(v) => v@,
            EffectOp::Parallel(v) => v@,
            _ => seq![],
        }
    }

    /// An op is larger than each op directly below it.
    pub proof fn below_is_smaller(self, i: int)
        requires
            0 <= i < self.below().len(),
        ensures
            decreases_to!(self => self.below()[i]),
    {
        match self {
            EffectOp::Sequence(v) => {
                assert(decreases_to!(self => v));
                assert(decreases_to!(v => v@));
                assert(decreases_to!(v@ => v@[i]));
            },
            EffectOp::Parallel(v) => {
                assert(decreases_to!(self => v));
                assert(decreases_to!(v => v@));
                assert(decreases_to!(v@ => v@[i]));
            },
            _ => {},
        }
    }

    /// The op's weight and the cost of everything below it.
    pub open spec fn cost(self) -> nat
        decreases self, 1nat, 0nat,
    {
        self.weight() + self.cost_below(self.below().len())
    }

    /// The summed cost of the first `n` ops directly below.
    pub open spec fn cost_below(self, n: nat) -> nat
        decreases self, 0nat, n,
    {
        if n == 0 || n > self.below().len() {
            0
        } else {
            proof {
                self.below_is_smaller(n - 1);
            }
            self.cost_below((n - 1) as nat) + self.below()[n - 1].cost()
        }
    }

    /// The length of the longest path down from the op, itself counted.
    pub open spec fn depth(self) -> nat
        decreases self, 1nat, 0nat,
    {
        1 + self.depth_below(self.below().len())
    }

    /// The greatest depth among the first `n` ops directly below; 0 if there are none.
    pub open spec fn depth_below(self, n: nat) -> nat
        decreases self, 0nat, n,
    {
        if n == 0 || n > self.below().len() {
            0
        } else {
            proof {
                self.below_is_smaller(n - 1);
            }
            let last = self.below()[n - 1].depth();
            let rest = self.depth_below((n - 1) as nat);
            if last > rest {
                last
            } else {
                rest
            }
        }
    }

    proof fn cost_below_grows(self, n: nat, m: nat)
        requires
            n <= m <= self.below().len(),
        ensures
            self.cost_below(n) <= self.cost_below(m),
        decreases m,
    {
        if n < m {
            self.cost_below_grows(n, (m - 1) as nat);
        }
    }

    proof fn depth_below_grows(self, n: nat, m: nat)
        requires
            n <= m <= self.below().len(),
        ensures
            self.depth_below(n) <= self.depth_below(m),
        decreases m,
    {
        if n < m {
            self.depth_below_grows(n, (m - 1) as nat);
        }
    }

    /// What a player pays for an op covers what they would pay for any part of it, and
    /// every part is less deep.
    pub proof fn parts_are_cheaper(self, i: int)
        requires
            0 <= i < self.below().len(),
        ensures
            self.below()[i].cost() <= self.cost(),
            self.below()[i].depth() < self.depth(),
    {
        self.cost_below_grows((i + 1) as nat, self.below().len());
        self.depth_below_grows((i + 1) as nat, self.below().len());
    }

    /// Weighted op count, used to price player-authored spells.
    pub fn complexity(&self) -> (r: u32)
        requires
            self.cost() <= u32::MAX,
        ensures
            r == self.cost(),
        decreases self,
    {
        let here: u32 = match self {
            EffectOp::Summon { .. } | EffectOp::Field { .. } => 5,
            EffectOp::Teleport { .. } | EffectOp::Shield { .. } => 3,
            EffectOp::Projectile { .. } | EffectOp::Area { .. } | EffectOp::Cone { .. } => 2,
            EffectOp::Noop => 0,
            _ => 1,
        };
        let children = self.children();
        let mut total: u32 = 0;
        let mut i: usize = 0;
        while i < children.len()
            invariant
                i <= children.len(),
                children@.len() == self.below().len(),
                forall|k: int| 0 <= k < children@.len() ==> *children@[k] == self.below()[k],
                self.cost() <= u32::MAX,
                here == self.weight(),
                total == self.cost_below(i as nat),
            decreases children.len() - i,
        {
            proof {
                self.below_is_smaller(i as int);
                self.parts_are_cheaper(i as int);
                self.cost_below_grows((i + 1) as nat, self.below().len());
            }
            total = total + children[i].complexity();
            i = i + 1;
        }
        here + total
    }

    /// Maximum nesting depth (guards against pathological recursion / griefing).
    pub fn max_depth(&self) -> (r: u32)
        requires
            self.depth() <= u32::MAX,
        ensures
            r == self.depth(),
        decreases self,
    {
        let children = self.children();
        let mut deepest: u32 = 0;
        let mut i: usize = 0;
        while i < children.len()
            invariant
                i <= children.len(),
                children@.len() == self.below().len(),
                forall|k: int| 0 <= k < children@.len() ==> *children@[k] == self.below()[k],
                self.depth() <= u32::MAX,
                deepest == self.depth_below(i as nat),
            decreases children.len() - i,
        {
            proof {
                self.below_is_smaller(i as int);
                self.parts_are_cheaper(i as int);
            }
            let d: u32 = children[i].max_depth();
            if d > deepest {
                deepest = d;
            }
            i = i + 1;
        }
        1 + deepest
    }

    /// Borrow all child ops, so traversal (complexity, validation, the interpreter) can
    /// be written once.
    pub fn children(&self) -> (r: Vec<&EffectOp>)
        ensures
            r@.len() == self.below().len(),
            forall|i: int| 0 <= i < r@.len() ==> *(#[trigger] r@[i]) == self.below()[i],
    {
        let mut out: Vec<&EffectOp> = Vec::new();
        match self {
            EffectOp::Ray { then, .. } => out.push(then),
            EffectOp::Area { then, .. } => out.push(then),
            EffectOp::Cone { then, .. } => out.push(then),
            EffectOp::Delay { then, .. } => out.push(then),
            EffectOp::Chance { then, .. } => out.push(then),
            EffectOp::Projectile { on_hit, .. } => out.push(on_hit),
            EffectOp::Field { tick, .. } => out.push(tick),
            EffectOp::Repeat { op, .. } => out.push(op),
            EffectOp::IfMarked { then, otherwise, .. } => {
                out.push(then);
                out.push(otherwise);
            },
            EffectOp::Sequence(v) => {
                push_refs(&mut out, v);
            },
            EffectOp::Parallel(v) => {
                push_refs(&mut out, v);
            },
            _ => {},
        }
        out
    }
}

fn push_refs<'a>(out: &mut Vec<&'a EffectOp>, ops: &'a Vec<EffectOp>)
    requires
        old(out)@.len() == 0,
    ensures
        final(out)@.len() == ops@.len(),
        forall|i: int| 0 <= i < ops@.len() ==> *(#[trigger] final(out)@[i]) == ops@[i],
{
    let mut i: usize = 0;
    while i < ops.len()
        invariant
            i <= ops.len(),
            out@.len() == i,
            forall|k: int| 0 <= k < i ==> *(#[trigger] out@[k]) == ops@[k],
        decreases ops.len() - i,
    {
        out.push(&ops[i]);
        i = i + 1;
    }
}

impl SpellDef {
    /// Total VM complexity: the count of effect ops weighted by op cost.
    pub fn complexity(&self) -> (r: u32)
        requires
            self.root.cost() <= u32::MAX,
        ensures
            r == self.root.cost(),
    {
        self.root.complexity()
    }

    /// Whether a spell of this cost, depth and mana cost may be authored on `budget`.
    pub open spec fn affordable(self, budget: Budget) -> bool {
        &&& self.root.cost() <= budget.max_complexity
        &&& self.root.depth() <= budget.max_depth
        &&& budget.min_mana_floor.at_most(self.mana_cost)
    }

    /// True if this spell fits within `budget` (for player-authored spells).
    pub fn fits(&self, budget: &Budget) -> (r: bool)
        requires
            self.root.cost() <= u32::MAX,
            self.root.depth() <= u32::MAX,
        ensures
            r == self.affordable(*budget),
    {
        self.complexity() <= budget.max_complexity && self.root.max_depth() <= budget.max_depth
            && self.mana_cost.ge(budget.min_mana_floor)
    }
}

/// No spell comes free: one that costs less mana than the floor never fits, whatever its effects,
/// nor does one that is more complex or deeper than the budget allows. One within all three
/// bounds fits.
pub proof fn no_free_nuke(spell: SpellDef, budget: Budget)
    ensures
        spell.mana_cost.below(budget.min_mana_floor) ==> !spell.affordable(budget),
        spell.mana_cost.nan() ==> !spell.affordable(budget),
        spell.root.cost() > budget.max_complexity ==> !spell.affordable(budget),
        spell.root.depth() > budget.max_depth ==> !spell.affordable(budget),
        spell.root.cost() <= budget.max_complexity && spell.root.depth() <= budget.max_depth
            && !spell.mana_cost.nan() && !budget.min_mana_floor.nan() && !spell.mana_cost.below(
            budget.min_mana_floor,
        ) ==> spell.affordable(budget),
{
}

/// The ops lead down from one to the next.
pub open spec fn leads_down(path: Seq<EffectOp>) -> bool {
    &&& path.len() > 0
    &&& forall|i: int|
        0 < i < path.len() ==> path[i - 1].below().contains(#[trigger] path[i])
}

/// No way down is longer than the depth.
pub proof fn depth_bounds_every_path(op: EffectOp, path: Seq<EffectOp>)
    requires
        leads_down(path),
        path[0] == op,
    ensures
        path.len() <= op.depth(),
    decreases path.len(),
{
    if path.len() > 1 {
        let rest = path.skip(1);
        assert(op.below().contains(path[1]));
        let k = choose|k: int| 0 <= k < op.below().len() && op.below()[k] == path[1];
        assert forall|i: int| 0 < i < rest.len() implies rest[i - 1].below().contains(
            #[trigger] rest[i],
        ) by {
            assert(rest[i] == path[i + 1]);
        }
        depth_bounds_every_path(path[1], rest);
        op.parts_are_cheaper(k);
    }
}

/// Some way down is as long as the depth.
pub proof fn depth_is_reached(op: EffectOp) -> (path: Seq<EffectOp>)
    ensures
        leads_down(path),
        path[0] == op,
        path.len() == op.depth(),
    decreases op,
{
    if op.below().len() == 0 {
        seq![op]
    } else {
        let k = deepest_below(op, op.below().len());
        op.below_is_smaller(k);
        let rest = depth_is_reached(op.below()[k]);
        let path = seq![op] + rest;
        assert forall|i: int| 0 < i < path.len() implies path[i - 1].below().contains(
            #[trigger] path[i],
        ) by {
            if i == 1 {
                assert(path[1] == op.below()[k]);
            } else {
                assert(rest[i - 2].below().contains(rest[i - 1]));
            }
        }
        path
    }
}

proof fn deepest_below(op: EffectOp, n: nat) -> (k: int)
    requires
        0 < n <= op.below().len(),
    ensures
        0 <= k < n,
        op.depth_below(n) == op.below()[k].depth(),
    decreases n,
{
    if n == 1 {
        assert(op.depth_below(0) == 0);
        0
    } else {
        let k = deepest_below(op, (n - 1) as nat);
        if op.below()[n - 1].depth() > op.depth_below((n - 1) as nat) {
            n - 1
        } else {
            k
        }
    }
}

/// Every op is paid for: one more op in a list makes the list dearer by what that op costs.
pub proof fn each_op_is_paid(v: Vec<EffectOp>, w: Vec<EffectOp>, op: EffectOp)
    requires
        w@ == v@.push(op),
    ensures
        EffectOp::Sequence(w).cost() == EffectOp::Sequence(v).cost() + op.cost(),
        EffectOp::Parallel(w).cost() == EffectOp::Parallel(v).cost() + op.cost(),
{
    let (a, b) = (EffectOp::Sequence(v), EffectOp::Sequence(w));
    let (c, d) = (EffectOp::Parallel(v), EffectOp::Parallel(w));
    same_cost_below(a, b, v@.len());
    same_cost_below(c, d, v@.len());
    assert(b.below()[v@.len() as int] == op);
    assert(d.below()[v@.len() as int] == op);
}

proof fn same_cost_below(a: EffectOp, b: EffectOp, n: nat)
    requires
        n <= a.below().len(),
        n <= b.below().len(),
        forall|k: int| 0 <= k < n ==> #[trigger] a.below()[k] == b.below()[k],
    ensures
        a.cost_below(n) == b.cost_below(n),
    decreases n,
{
    if n > 0 {
        same_cost_below(a, b, (n - 1) as nat);
        assert(a.below()[n - 1] == b.below()[n - 1]);
    }
}

/// Raising a budget never takes a spell away: whatever fits a budget fits every budget
/// that is at least as wide and asks no more mana.
pub proof fn wider_budget_keeps_spells(spell: SpellDef, narrow: Budget, wide: Budget)
    requires
        spell.affordable(narrow),
        narrow.max_complexity <= wide.max_complexity,
        narrow.max_depth <= wide.max_depth,
        wide.min_mana_floor.at_most(narrow.min_mana_floor),
    ensures
        spell.affordable(wide),
{
}

impl Default for Budget {
    /// Novice budget: a couple of ops, shallow.
    fn default() -> (r: Self)
        ensures
            r.max_complexity == 3,
            r.max_depth == 3,
            r.min_mana_floor == decimal(5, 0),
    {
        Budget { max_complexity: 3, max_depth: 3, min_mana_floor: dec(5, 0) }
    }
}

impl Default for Scaling {
    /// A spell that no attribute amplifies.
    fn default() -> (r: Self)
        ensures
            r.power.bits == 0,
            r.focus.bits == 0,
            r.agility.bits == 0,
            r.level.bits == 0,
    {
        let zero = Scalar { bits: 0 };
        Scaling { power: zero, focus: zero, agility: zero, level: zero }
    }
}

/// Every op that an op holds is below it, in order: what a shape or a delay runs, both ways of a choice,
/// all of a list, and nothing else.
pub proof fn everything_below_is_seen(op: &EffectOp, r: Vec<&EffectOp>)
    requires
        call_ensures(EffectOp::children, (op,), r),
    ensures
        match *op {
            EffectOp::Ray { then, .. } => r@.len() == 1 && *r@[0] == *then,
            EffectOp::Projectile { on_hit, .. } => r@.len() == 1 && *r@[0] == *on_hit,
            EffectOp::Area { then, .. } => r@.len() == 1 && *r@[0] == *then,
            EffectOp::Cone { then, .. } => r@.len() == 1 && *r@[0] == *then,
            EffectOp::Field { tick, .. } => r@.len() == 1 && *r@[0] == *tick,
            EffectOp::Damage { .. } => r@.len() == 0,
            EffectOp::Heal { .. } => r@.len() == 0,
            EffectOp::Shield { .. } => r@.len() == 0,
            EffectOp::ApplyStatus { .. } => r@.len() == 0,
            EffectOp::Impulse { .. } => r@.len() == 0,
            EffectOp::Teleport { .. } => r@.len() == 0,
            EffectOp::Summon { .. } => r@.len() == 0,
            EffectOp::RestoreMana { .. } => r@.len() == 0,
            EffectOp::Mark { .. } => r@.len() == 0,
            EffectOp::Sequence(ops) => r@.len() == ops@.len() && forall|i: int|
                0 <= i < ops@.len() ==> *(#[trigger] r@[i]) == ops@[i],
            EffectOp::Parallel(ops) => r@.len() == ops@.len() && forall|i: int|
                0 <= i < ops@.len() ==> *(#[trigger] r@[i]) == ops@[i],
            EffectOp::Delay { then, .. } => r@.len() == 1 && *r@[0] == *then,
            EffectOp::Repeat { op: below, .. } => r@.len() == 1 && *r@[0] == *below,
            EffectOp::Chance { then, .. } => r@.len() == 1 && *r@[0] == *then,
            EffectOp::IfMarked { then, otherwise, .. } => r@.len() == 2 && *r@[0] == *then && *r@[1] == *otherwise,
            EffectOp::Noop => r@.len() == 0,
        },
{
    assert forall|i: int| 0 <= i < r@.len() implies *(#[trigger] r@[i]) == op.below()[i] by {}
}

/// Each op has its price, and everything that it holds is paid for besides.
pub proof fn ops_have_their_price(op: &EffectOp, r: u32)
    requires
        call_ensures(EffectOp::complexity, (op,), r),
    ensures
        match *op {
            EffectOp::Ray { then, .. } => r == 1 + then.cost(),
            EffectOp::Projectile { on_hit, .. } => r == 2 + on_hit.cost(),
            EffectOp::Area { then, .. } => r == 2 + then.cost(),
            EffectOp::Cone { then, .. } => r == 2 + then.cost(),
            EffectOp::Field { tick, .. } => r == 5 + tick.cost(),
            EffectOp::Damage { .. } => r == 1,
            EffectOp::Heal { .. } => r == 1,
            EffectOp::Shield { .. } => r == 3,
            EffectOp::ApplyStatus { .. } => r == 1,
            EffectOp::Impulse { .. } => r == 1,
            EffectOp::Teleport { .. } => r == 3,
            EffectOp::Summon { .. } => r == 5,
            EffectOp::RestoreMana { .. } => r == 1,
            EffectOp::Mark { .. } => r == 1,
            EffectOp::Delay { then, .. } => r == 1 + then.cost(),
            EffectOp::Repeat { op: below, .. } => r == 1 + below.cost(),
            EffectOp::Chance { then, .. } => r == 1 + then.cost(),
            EffectOp::IfMarked { then, otherwise, .. } => r == 1 + then.cost() + otherwise.cost(),
            EffectOp::Noop => r == 0,
            EffectOp::Sequence(ops) => ops@.len() == 0 ==> r == 1,
            EffectOp::Parallel(ops) => ops@.len() == 0 ==> r == 1,
        },
{
    assert(op.cost_below(0) == 0);
    if op.below().len() >= 1 {
        op.below_is_smaller(0);
        assert(op.cost_below(1) == op.cost_below(0) + op.below()[0].cost());
    }
    if op.below().len() >= 2 {
        op.below_is_smaller(1);
        assert(op.cost_below(2) == op.cost_below(1) + op.below()[1].cost());
    }
}

/// What fits is within the budget in all three ways, and what is within it in all three fits.
pub proof fn budgets_bound_what_fits(spell: &SpellDef, budget: &Budget, r: bool, cost: u32, depth: u32)
    requires
        call_ensures(SpellDef::fits, (spell, budget), r),
        call_ensures(SpellDef::complexity, (spell,), cost),
        call_ensures(EffectOp::max_depth, (&spell.root,), depth),
    ensures
        r <==> cost <= budget.max_complexity && depth <= budget.max_depth && !spell.mana_cost.nan()
            && !budget.min_mana_floor.nan() && !spell.mana_cost.below(budget.min_mana_floor),
{
}

/// An op is one deeper than the deepest op that it holds.
pub proof fn depth_counts_levels(op: &EffectOp, r: u32, k: int)
    requires
        call_ensures(EffectOp::max_depth, (op,), r),
    ensures
        op.below().len() == 0 ==> r == 1,
        0 <= k < op.below().len() ==> op.below()[k].depth() < r,
        op.below().len() > 0 ==> exists|j: int|
            0 <= j < op.below().len() && (#[trigger] op.below()[j]).depth() + 1 == r,
{
    if 0 <= k < op.below().len() {
        op.parts_are_cheaper(k);
    }
    if op.below().len() > 0 {
        let j = deepest_below(*op, op.below().len());
        assert(op.below()[j].depth() + 1 == op.depth());
    }
}

} // verus!
