//! Spells as rows, and their effects as nested calls.

use crate::content::closed::{applied, applied_below};
use crate::content::ids::{ElementId, MobId, SpellId, StatusId};
use crate::content::sheet::{milli, thousandths};
use crate::content::spell::{EffectOp, Faction, Scaling, SpellDef};
use crate::scalar::{decimal, Scalar};
use vstd::prelude::*;

verus! {

/// An effect op with its names as text and its lists as sequences.
pub ghost enum Op {
    Ray { range: Scalar, pierce: u8, then: Box<Op> },
    Projectile {
        speed: Scalar,
        gravity: Scalar,
        radius: Scalar,
        lifetime_s: Scalar,
        homing: Scalar,
        on_hit: Box<Op>,
    },
    Area { radius: Scalar, faction: Faction, falloff: Scalar, then: Box<Op> },
    Cone { range: Scalar, half_angle_rad: Scalar, faction: Faction, then: Box<Op> },
    Field {
        radius: Scalar,
        duration_s: Scalar,
        interval_s: Scalar,
        faction: Faction,
        tick: Box<Op>,
    },
    Damage { amount: Scalar, element: Seq<char> },
    Heal { amount: Scalar },
    Shield { amount: Scalar, duration_s: Scalar },
    ApplyStatus { status: Seq<char>, duration_s: Scalar, stacks: u8 },
    Impulse { force: Scalar, vertical_bias: Scalar },
    Teleport { max_distance: Scalar, to_target: bool },
    Summon { mob: Seq<char>, count: u8, duration_s: Scalar },
    RestoreMana { amount: Scalar },
    Mark { tag: Seq<char>, duration_s: Scalar },
    Sequence(Seq<Op>),
    Parallel(Seq<Op>),
    Delay { secs: Scalar, then: Box<Op> },
    Repeat { count: u16, interval_s: Scalar, op: Box<Op> },
    Chance { chance: Scalar, then: Box<Op> },
    IfMarked { tag: Seq<char>, then: Box<Op>, otherwise: Box<Op> },
    Noop,
}

/// What an op says.
pub open spec fn shown(op: EffectOp) -> Op
    decreases op, 1nat, 0nat,
{
    match op {
        EffectOp::Ray { range, pierce, then } => Op::Ray {
            range,
            pierce,
            then: Box::new(shown(*then)),
        },
        EffectOp::Projectile { speed, gravity, radius, lifetime_s, homing, on_hit } => Op::Projectile {
            speed,
            gravity,
            radius,
            lifetime_s,
            homing,
            on_hit: Box::new(shown(*on_hit)),
        },
        EffectOp::Area { radius, faction, falloff, then } => Op::Area {
            radius,
            faction,
            falloff,
            then: Box::new(shown(*then)),
        },
        EffectOp::Cone { range, half_angle_rad, faction, then } => Op::Cone {
            range,
            half_angle_rad,
            faction,
            then: Box::new(shown(*then)),
        },
        EffectOp::Field { radius, duration_s, interval_s, faction, tick } => Op::Field {
            radius,
            duration_s,
            interval_s,
            faction,
            tick: Box::new(shown(*tick)),
        },
        EffectOp::Damage { amount, element } => Op::Damage { amount, element: element@ },
        EffectOp::Heal { amount } => Op::Heal { amount },
        EffectOp::Shield { amount, duration_s } => Op::Shield { amount, duration_s },
        EffectOp::ApplyStatus { status, duration_s, stacks } => Op::ApplyStatus {
            status: status@,
            duration_s,
            stacks,
        },
        EffectOp::Impulse { force, vertical_bias } => Op::Impulse { force, vertical_bias },
        EffectOp::Teleport { max_distance, to_target } => Op::Teleport { max_distance, to_target },
        EffectOp::Summon { mob, count, duration_s } => Op::Summon { mob: mob@, count, duration_s },
        EffectOp::RestoreMana { amount } => Op::RestoreMana { amount },
        EffectOp::Mark { tag, duration_s } => Op::Mark { tag: tag@, duration_s },
        EffectOp::Sequence(_) => Op::Sequence(shown_below(op, op.below().len())),
        EffectOp::Parallel(_) => Op::Parallel(shown_below(op, op.below().len())),
        EffectOp::Delay { secs, then } => Op::Delay { secs, then: Box::new(shown(*then)) },
        EffectOp::Repeat { count, interval_s, op } => Op::Repeat {
            count,
            interval_s,
            op: Box::new(shown(*op)),
        },
        EffectOp::Chance { chance, then } => Op::Chance { chance, then: Box::new(shown(*then)) },
        EffectOp::IfMarked { tag, then, otherwise } => Op::IfMarked {
            tag: tag@,
            then: Box::new(shown(*then)),
            otherwise: Box::new(shown(*otherwise)),
        },
        EffectOp::Noop => Op::Noop,
    }
}

/// The same for the first `n` ops directly below.
pub open spec fn shown_below(op: EffectOp, n: nat) -> Seq<Op>
    decreases op, 0nat, n,
{
    if n == 0 || n > op.below().len() {
        Seq::empty()
    } else {
        proof {
            op.below_is_smaller(n - 1);
        }
        shown_below(op, (n - 1) as nat).push(shown(op.below()[n - 1]))
    }
}

/// Lists of ops that show the same, one by one, show the same together.
pub proof fn shown_alike(a: EffectOp, b: EffectOp, n: nat)
    requires
        n <= a.below().len(),
        n <= b.below().len(),
        forall|k: int| 0 <= k < n ==> shown(#[trigger] a.below()[k]) == shown(b.below()[k]),
    ensures
        shown_below(a, n) == shown_below(b, n),
    decreases n,
{
    if n > 0 {
        shown_alike(a, b, (n - 1) as nat);
        assert(shown(a.below()[n - 1]) == shown(b.below()[n - 1]));
    }
}

/// What the op shows, what it costs, and the statuses that it applies.
pub open spec fn reads(op: EffectOp, shows: Op, cost: nat, statuses: Set<Seq<char>>) -> bool {
    &&& shown(op) == shows
    &&& op.cost() == cost
    &&& applied(op) == statuses
}

proof fn leaf(op: EffectOp)
    requires
        op.below().len() == 0,
    ensures
        op.cost() == op.weight(),
        !(op is ApplyStatus) ==> applied(op) == Set::<Seq<char>>::empty(),
        op matches EffectOp::ApplyStatus { status, .. } ==> applied(op) == set![status@],
{
}

proof fn stem(op: EffectOp)
    requires
        op.below().len() == 1,
    ensures
        op.cost() == op.weight() + op.below()[0].cost(),
        applied(op) == applied(op.below()[0]),
{
    op.below_is_smaller(0);
    assert(op.cost_below(0) == 0);
    assert(op.cost_below(1) == op.cost_below(0) + op.below()[0].cost());
    assert(applied_below(op, 0) =~= Set::<Seq<char>>::empty());
    assert(applied_below(op, 1) =~= applied(op.below()[0]));
}

proof fn fork(op: EffectOp)
    requires
        op.below().len() == 2,
    ensures
        op.cost() == op.weight() + op.below()[0].cost() + op.below()[1].cost(),
        applied(op) == applied(op.below()[0]).union(applied(op.below()[1])),
        shown_below(op, 2) == seq![shown(op.below()[0]), shown(op.below()[1])],
{
    op.below_is_smaller(0);
    op.below_is_smaller(1);
    assert(op.cost_below(0) == 0);
    assert(op.cost_below(1) == op.cost_below(0) + op.below()[0].cost());
    assert(op.cost_below(2) == op.cost_below(1) + op.below()[1].cost());
    assert(applied_below(op, 0) =~= Set::<Seq<char>>::empty());
    assert(applied_below(op, 1) =~= applied(op.below()[0]));
    assert(applied_below(op, 2) =~= applied(op.below()[0]).union(applied(op.below()[1])));
    assert(shown_below(op, 0) =~= Seq::<Op>::empty());
    assert(shown_below(op, 1) =~= seq![shown(op.below()[0])]);
    assert(shown_below(op, 2) =~= seq![shown(op.below()[0]), shown(op.below()[1])]);
}

proof fn trident(op: EffectOp)
    requires
        op.below().len() == 3,
    ensures
        op.cost() == op.weight() + op.below()[0].cost() + op.below()[1].cost()
            + op.below()[2].cost(),
        applied(op) == applied(op.below()[0]).union(applied(op.below()[1])).union(
            applied(op.below()[2]),
        ),
        shown_below(op, 3) == seq![
            shown(op.below()[0]),
            shown(op.below()[1]),
            shown(op.below()[2]),
        ],
{
    op.below_is_smaller(0);
    op.below_is_smaller(1);
    op.below_is_smaller(2);
    assert(op.cost_below(0) == 0);
    assert(op.cost_below(1) == op.cost_below(0) + op.below()[0].cost());
    assert(op.cost_below(2) == op.cost_below(1) + op.below()[1].cost());
    assert(op.cost_below(3) == op.cost_below(2) + op.below()[2].cost());
    assert(applied_below(op, 0) =~= Set::<Seq<char>>::empty());
    assert(applied_below(op, 1) =~= applied(op.below()[0]));
    assert(applied_below(op, 2) =~= applied(op.below()[0]).union(applied(op.below()[1])));
    assert(applied_below(op, 3) =~= applied(op.below()[0]).union(applied(op.below()[1])).union(
        applied(op.below()[2]),
    ));
    assert(shown_below(op, 0) =~= Seq::<Op>::empty());
    assert(shown_below(op, 1) =~= seq![shown(op.below()[0])]);
    assert(shown_below(op, 2) =~= seq![shown(op.below()[0]), shown(op.below()[1])]);
    assert(shown_below(op, 3) =~= seq![
        shown(op.below()[0]),
        shown(op.below()[1]),
        shown(op.below()[2]),
    ]);
}

/// The ops as they are written in a pack: numbers in thousandths, names as text.
impl Op {
    pub open spec fn ray(range: int, pierce: u8, then: Op) -> Op {
        Op::Ray { range: decimal(range, 3), pierce, then: Box::new(then) }
    }

    pub open spec fn projectile(speed: int, gravity: int, radius: int, lifetime_s: int, homing: int, on_hit: Op) -> Op {
        Op::Projectile { speed: decimal(speed, 3), gravity: decimal(gravity, 3), radius: decimal(radius, 3), lifetime_s: decimal(lifetime_s, 3), homing: decimal(homing, 3), on_hit: Box::new(on_hit) }
    }

    pub open spec fn area(radius: int, faction: Faction, falloff: int, then: Op) -> Op {
        Op::Area { radius: decimal(radius, 3), faction, falloff: decimal(falloff, 3), then: Box::new(then) }
    }

    pub open spec fn cone(range: int, half_angle_rad: int, faction: Faction, then: Op) -> Op {
        Op::Cone { range: decimal(range, 3), half_angle_rad: decimal(half_angle_rad, 3), faction, then: Box::new(then) }
    }

    pub open spec fn field(radius: int, duration_s: int, interval_s: int, faction: Faction, tick: Op) -> Op {
        Op::Field { radius: decimal(radius, 3), duration_s: decimal(duration_s, 3), interval_s: decimal(interval_s, 3), faction, tick: Box::new(tick) }
    }

    pub open spec fn damage(amount: int, element: Seq<char>) -> Op {
        Op::Damage { amount: decimal(amount, 3), element }
    }

    pub open spec fn heal(amount: int) -> Op {
        Op::Heal { amount: decimal(amount, 3) }
    }

    pub open spec fn shield(amount: int, duration_s: int) -> Op {
        Op::Shield { amount: decimal(amount, 3), duration_s: decimal(duration_s, 3) }
    }

    pub open spec fn afflict(status: Seq<char>, duration_s: int, stacks: u8) -> Op {
        Op::ApplyStatus { status, duration_s: decimal(duration_s, 3), stacks }
    }

    pub open spec fn impulse(force: int, vertical_bias: int) -> Op {
        Op::Impulse { force: decimal(force, 3), vertical_bias: decimal(vertical_bias, 3) }
    }

    pub open spec fn teleport(max_distance: int, to_target: bool) -> Op {
        Op::Teleport { max_distance: decimal(max_distance, 3), to_target }
    }

    pub open spec fn summon(mob: Seq<char>, count: u8, duration_s: int) -> Op {
        Op::Summon { mob, count, duration_s: decimal(duration_s, 3) }
    }

    pub open spec fn restore_mana(amount: int) -> Op {
        Op::RestoreMana { amount: decimal(amount, 3) }
    }

    pub open spec fn mark(tag: Seq<char>, duration_s: int) -> Op {
        Op::Mark { tag, duration_s: decimal(duration_s, 3) }
    }

    pub open spec fn delay(secs: int, then: Op) -> Op {
        Op::Delay { secs: decimal(secs, 3), then: Box::new(then) }
    }

    pub open spec fn repeat(count: u16, interval_s: int, op: Op) -> Op {
        Op::Repeat { count, interval_s: decimal(interval_s, 3), op: Box::new(op) }
    }

    pub open spec fn perhaps(chance: int, then: Op) -> Op {
        Op::Chance { chance: decimal(chance, 3), then: Box::new(then) }
    }

    pub open spec fn if_marked(tag: Seq<char>, then: Op, otherwise: Op) -> Op {
        Op::IfMarked { tag, then: Box::new(then), otherwise: Box::new(otherwise) }
    }

    pub open spec fn noop() -> Op {
        Op::Noop
    }

    pub open spec fn both(a: Op, b: Op) -> Op {
        Op::Sequence(seq![a, b])
    }

    pub open spec fn all_three(a: Op, b: Op, c: Op) -> Op {
        Op::Sequence(seq![a, b, c])
    }

    pub open spec fn at_once(a: Op, b: Op) -> Op {
        Op::Parallel(seq![a, b])
    }
}

/// A ray, with what follows on each target.
pub fn ray(range: i32, pierce: u8, then: EffectOp) -> (r: EffectOp)
    ensures
        reads(r, Op::ray(range as int, pierce, shown(then)), 1 + then.cost(), applied(then)),
{
    let r = EffectOp::Ray { range: milli(range), pierce, then: Box::new(then) };
    proof {
        stem(r);
    }
    r
}

/// A projectile, with what follows on a hit.
pub fn projectile(speed: i32, gravity: i32, radius: i32, lifetime_s: i32, homing: i32, on_hit: EffectOp) -> (r: EffectOp)
    ensures
        reads(r, Op::projectile(speed as int, gravity as int, radius as int, lifetime_s as int, homing as int, shown(on_hit)), 2 + on_hit.cost(), applied(on_hit)),
{
    let r = EffectOp::Projectile { speed: milli(speed), gravity: milli(gravity), radius: milli(radius), lifetime_s: milli(lifetime_s), homing: milli(homing), on_hit: Box::new(on_hit) };
    proof {
        stem(r);
    }
    r
}

/// An area around the point, with what follows on each target.
pub fn area(radius: i32, faction: Faction, falloff: i32, then: EffectOp) -> (r: EffectOp)
    ensures
        reads(r, Op::area(radius as int, faction, falloff as int, shown(then)), 2 + then.cost(), applied(then)),
{
    let r = EffectOp::Area { radius: milli(radius), faction, falloff: milli(falloff), then: Box::new(then) };
    proof {
        stem(r);
    }
    r
}

/// A cone from the caster, with what follows on each target.
pub fn cone(range: i32, half_angle_rad: i32, faction: Faction, then: EffectOp) -> (r: EffectOp)
    ensures
        reads(r, Op::cone(range as int, half_angle_rad as int, faction, shown(then)), 2 + then.cost(), applied(then)),
{
    let r = EffectOp::Cone { range: milli(range), half_angle_rad: milli(half_angle_rad), faction, then: Box::new(then) };
    proof {
        stem(r);
    }
    r
}

/// A field that stays, with what it does at each interval.
pub fn field(radius: i32, duration_s: i32, interval_s: i32, faction: Faction, tick: EffectOp) -> (r: EffectOp)
    ensures
        reads(r, Op::field(radius as int, duration_s as int, interval_s as int, faction, shown(tick)), 5 + tick.cost(), applied(tick)),
{
    let r = EffectOp::Field { radius: milli(radius), duration_s: milli(duration_s), interval_s: milli(interval_s), faction, tick: Box::new(tick) };
    proof {
        stem(r);
    }
    r
}

/// Damage of an element.
pub fn damage(amount: i32, element: &str) -> (r: EffectOp)
    ensures
        reads(r, Op::damage(amount as int, element@), 1, Set::empty()),
{
    let r = EffectOp::Damage { amount: milli(amount), element: ElementId::new(element) };
    proof {
        leaf(r);
    }
    r
}

/// Healing.
pub fn heal(amount: i32) -> (r: EffectOp)
    ensures
        reads(r, Op::heal(amount as int), 1, Set::empty()),
{
    let r = EffectOp::Heal { amount: milli(amount) };
    proof {
        leaf(r);
    }
    r
}

/// A shield that lasts for a while.
pub fn shield(amount: i32, duration_s: i32) -> (r: EffectOp)
    ensures
        reads(r, Op::shield(amount as int, duration_s as int), 3, Set::empty()),
{
    let r = EffectOp::Shield { amount: milli(amount), duration_s: milli(duration_s) };
    proof {
        leaf(r);
    }
    r
}

/// A status, for a while.
pub fn afflict(status: &str, duration_s: i32, stacks: u8) -> (r: EffectOp)
    ensures
        reads(r, Op::afflict(status@, duration_s as int, stacks), 1, set![status@]),
{
    let r = EffectOp::ApplyStatus { status: StatusId::new(status), duration_s: milli(duration_s), stacks };
    proof {
        leaf(r);
    }
    r
}

/// A push.
pub fn impulse(force: i32, vertical_bias: i32) -> (r: EffectOp)
    ensures
        reads(r, Op::impulse(force as int, vertical_bias as int), 1, Set::empty()),
{
    let r = EffectOp::Impulse { force: milli(force), vertical_bias: milli(vertical_bias) };
    proof {
        leaf(r);
    }
    r
}

/// A jump of the caster.
pub fn teleport(max_distance: i32, to_target: bool) -> (r: EffectOp)
    ensures
        reads(r, Op::teleport(max_distance as int, to_target), 3, Set::empty()),
{
    let r = EffectOp::Teleport { max_distance: milli(max_distance), to_target };
    proof {
        leaf(r);
    }
    r
}

/// Mobs that stay for a while.
pub fn summon(mob: &str, count: u8, duration_s: i32) -> (r: EffectOp)
    ensures
        reads(r, Op::summon(mob@, count, duration_s as int), 5, Set::empty()),
{
    let r = EffectOp::Summon { mob: MobId::new(mob), count, duration_s: milli(duration_s) };
    proof {
        leaf(r);
    }
    r
}

/// Mana given back.
pub fn restore_mana(amount: i32) -> (r: EffectOp)
    ensures
        reads(r, Op::restore_mana(amount as int), 1, Set::empty()),
{
    let r = EffectOp::RestoreMana { amount: milli(amount) };
    proof {
        leaf(r);
    }
    r
}

/// A mark that lasts for a while.
pub fn mark(tag: &str, duration_s: i32) -> (r: EffectOp)
    ensures
        reads(r, Op::mark(tag@, duration_s as int), 1, Set::empty()),
{
    let r = EffectOp::Mark { tag: tag.to_owned(), duration_s: milli(duration_s) };
    proof {
        leaf(r);
    }
    r
}

/// An op after a wait.
pub fn delay(secs: i32, then: EffectOp) -> (r: EffectOp)
    ensures
        reads(r, Op::delay(secs as int, shown(then)), 1 + then.cost(), applied(then)),
{
    let r = EffectOp::Delay { secs: milli(secs), then: Box::new(then) };
    proof {
        stem(r);
    }
    r
}

/// An op, several times.
pub fn repeat(count: u16, interval_s: i32, op: EffectOp) -> (r: EffectOp)
    ensures
        reads(r, Op::repeat(count, interval_s as int, shown(op)), 1 + op.cost(), applied(op)),
{
    let r = EffectOp::Repeat { count, interval_s: milli(interval_s), op: Box::new(op) };
    proof {
        stem(r);
    }
    r
}

/// An op, by chance.
pub fn perhaps(chance: i32, then: EffectOp) -> (r: EffectOp)
    ensures
        reads(r, Op::perhaps(chance as int, shown(then)), 1 + then.cost(), applied(then)),
{
    let r = EffectOp::Chance { chance: milli(chance), then: Box::new(then) };
    proof {
        stem(r);
    }
    r
}

/// One of two ops, by whether the target carries the mark.
pub fn if_marked(tag: &str, then: EffectOp, otherwise: EffectOp) -> (r: EffectOp)
    ensures
        reads(r, Op::if_marked(tag@, shown(then), shown(otherwise)), 1 + then.cost() + otherwise.cost(), applied(then).union(applied(otherwise))),
{
    let r = EffectOp::IfMarked { tag: tag.to_owned(), then: Box::new(then), otherwise: Box::new(otherwise) };
    proof {
        fork(r);
    }
    r
}

/// Nothing.
pub fn noop() -> (r: EffectOp)
    ensures
        reads(r, Op::noop(), 0, Set::empty()),
{
    let r = EffectOp::Noop;
    proof {
        leaf(r);
    }
    r
}

/// Two ops in order.
pub fn both(a: EffectOp, b: EffectOp) -> (r: EffectOp)
    ensures
        reads(
            r,
            Op::both(shown(a), shown(b)),
            1 + a.cost() + b.cost(),
            applied(a).union(applied(b)),
        ),
{
    let mut list: Vec<EffectOp> = Vec::new();
    list.push(a);
    list.push(b);
    let r = EffectOp::Sequence(list);
    proof {
        assert(r.below() =~= seq![a, b]);
        fork(r);
    }
    r
}

/// Three ops in order.
pub fn all_three(a: EffectOp, b: EffectOp, c: EffectOp) -> (r: EffectOp)
    ensures
        reads(
            r,
            Op::all_three(shown(a), shown(b), shown(c)),
            1 + a.cost() + b.cost() + c.cost(),
            applied(a).union(applied(b)).union(applied(c)),
        ),
{
    let mut list: Vec<EffectOp> = Vec::new();
    list.push(a);
    list.push(b);
    list.push(c);
    let r = EffectOp::Sequence(list);
    proof {
        assert(r.below() =~= seq![a, b, c]);
        trident(r);
    }
    r
}

/// Two ops without order.
pub fn at_once(a: EffectOp, b: EffectOp) -> (r: EffectOp)
    ensures
        reads(
            r,
            Op::at_once(shown(a), shown(b)),
            1 + a.cost() + b.cost(),
            applied(a).union(applied(b)),
        ),
{
    let mut list: Vec<EffectOp> = Vec::new();
    list.push(a);
    list.push(b);
    let r = EffectOp::Parallel(list);
    proof {
        assert(r.below() =~= seq![a, b]);
        fork(r);
    }
    r
}

/// `(id, name, description, element, (mana, seconds to cast, seconds to recover), whether it is
/// channeled, (power, focus, agility, level) scaling)`.
pub type SpellRow = (
    &'static str,
    &'static str,
    &'static str,
    &'static str,
    (i32, i32, i32),
    bool,
    (i32, i32, i32, i32),
);

/// The definition is what the row says, priced by what its effects cost.
pub open spec fn is_spell(d: SpellDef, row: SpellRow) -> bool {
    &&& d.id@ == row.0@
    &&& d.name@ == row.1@
    &&& d.description@ == row.2@
    &&& d.element@ == row.3@
    &&& d.mana_cost == thousandths(row.4.0)
    &&& d.cast_time == thousandths(row.4.1)
    &&& d.cooldown == thousandths(row.4.2)
    &&& d.channeled == row.5
    &&& d.scaling == (Scaling {
        power: thousandths(row.6.0),
        focus: thousandths(row.6.1),
        agility: thousandths(row.6.2),
        level: thousandths(row.6.3),
    })
    &&& d.author_cost == d.root.cost()
}

/// The list is what the table says, each spell with the effects at its place.
pub open spec fn are_spells(
    list: Seq<SpellDef>,
    rows: Seq<SpellRow>,
    effects: spec_fn(int) -> Op,
) -> bool {
    &&& list.len() == rows.len()
    &&& forall|i: int|
        0 <= i < list.len() ==> is_spell(#[trigger] list[i], rows[i]) && shown(list[i].root)
            == effects(i)
}

/// The spells apply known statuses only.
pub open spec fn applies_known(list: Seq<SpellDef>, known: Set<Seq<char>>) -> bool {
    forall|i: int| 0 <= i < list.len() ==> applied((#[trigger] list[i]).root).subset_of(known)
}

/// The definition is what the row says, has these effects, and applies known statuses only.
#[verifier::opaque]
pub open spec fn written(d: SpellDef, row: SpellRow, effects: Op, known: Set<Seq<char>>) -> bool {
    &&& is_spell(d, row)
    &&& shown(d.root) == effects
    &&& applied(d.root).subset_of(known)
}

/// Build a [`SpellDef`], deriving `author_cost` from the graph's complexity so the authored
/// spells are priced on the same scale as player-made ones.
pub fn spell(row: SpellRow, root: EffectOp) -> (r: SpellDef)
    requires
        root.cost() <= u32::MAX,
    ensures
        is_spell(r, row),
        r.root == root,
{
    let author_cost: u32 = root.complexity();
    SpellDef {
        id: SpellId::new(row.0),
        name: row.1.to_owned(),
        description: row.2.to_owned(),
        element: ElementId::new(row.3),
        mana_cost: milli(row.4.0),
        cast_time: milli(row.4.1),
        cooldown: milli(row.4.2),
        channeled: row.5,
        scaling: Scaling {
            power: milli(row.6.0),
            focus: milli(row.6.1),
            agility: milli(row.6.2),
            level: milli(row.6.3),
        },
        root,
        author_cost,
    }
}

proof fn shown_one_by_one(op: EffectOp, n: nat)
    requires
        n <= op.below().len(),
    ensures
        shown_below(op, n).len() == n,
        forall|k: int| 0 <= k < n ==> #[trigger] shown_below(op, n)[k] == shown(op.below()[k]),
    decreases n,
{
    if n > 0 {
        shown_one_by_one(op, (n - 1) as nat);
    }
}

/// Ops that show the same are the same in everything they say: of one kind, with the same numbers,
/// names and flags, and holding ops that show the same, one by one.
pub proof fn ops_that_show_alike_are_alike(a: EffectOp, b: EffectOp)
    requires
        shown(a) == shown(b),
    ensures
        match (a, b) {
            (
                EffectOp::Ray { range: a0, pierce: a1, then: a2 },
                EffectOp::Ray { range: b0, pierce: b1, then: b2 },
            ) => a0 == b0
                && a1 == b1
                && shown(*a2) == shown(*b2),
            (
                EffectOp::Projectile { speed: a0, gravity: a1, radius: a2, lifetime_s: a3, homing: a4, on_hit: a5 },
                EffectOp::Projectile { speed: b0, gravity: b1, radius: b2, lifetime_s: b3, homing: b4, on_hit: b5 },
            ) => a0 == b0
                && a1 == b1
                && a2 == b2
                && a3 == b3
                && a4 == b4
                && shown(*a5) == shown(*b5),
            (
                EffectOp::Area { radius: a0, faction: a1, falloff: a2, then: a3 },
                EffectOp::Area { radius: b0, faction: b1, falloff: b2, then: b3 },
            ) => a0 == b0
                && a1 == b1
                && a2 == b2
                && shown(*a3) == shown(*b3),
            (
                EffectOp::Cone { range: a0, half_angle_rad: a1, faction: a2, then: a3 },
                EffectOp::Cone { range: b0, half_angle_rad: b1, faction: b2, then: b3 },
            ) => a0 == b0
                && a1 == b1
                && a2 == b2
                && shown(*a3) == shown(*b3),
            (
                EffectOp::Field { radius: a0, duration_s: a1, interval_s: a2, faction: a3, tick: a4 },
                EffectOp::Field { radius: b0, duration_s: b1, interval_s: b2, faction: b3, tick: b4 },
            ) => a0 == b0
                && a1 == b1
                && a2 == b2
                && a3 == b3
                && shown(*a4) == shown(*b4),
            (
                EffectOp::Damage { amount: a0, element: a1 },
                EffectOp::Damage { amount: b0, element: b1 },
            ) => a0 == b0
                && a1@ == b1@,
            (
                EffectOp::Heal { amount: a0 },
                EffectOp::Heal { amount: b0 },
            ) => a0 == b0,
            (
                EffectOp::Shield { amount: a0, duration_s: a1 },
                EffectOp::Shield { amount: b0, duration_s: b1 },
            ) => a0 == b0
                && a1 == b1,
            (
                EffectOp::ApplyStatus { status: a0, duration_s: a1, stacks: a2 },
                EffectOp::ApplyStatus { status: b0, duration_s: b1, stacks: b2 },
            ) => a0@ == b0@
                && a1 == b1
                && a2 == b2,
            (
                EffectOp::Impulse { force: a0, vertical_bias: a1 },
                EffectOp::Impulse { force: b0, vertical_bias: b1 },
            ) => a0 == b0
                && a1 == b1,
            (
                EffectOp::Teleport { max_distance: a0, to_target: a1 },
                EffectOp::Teleport { max_distance: b0, to_target: b1 },
            ) => a0 == b0
                && a1 == b1,
            (
                EffectOp::Summon { mob: a0, count: a1, duration_s: a2 },
                EffectOp::Summon { mob: b0, count: b1, duration_s: b2 },
            ) => a0@ == b0@
                && a1 == b1
                && a2 == b2,
            (
                EffectOp::RestoreMana { amount: a0 },
                EffectOp::RestoreMana { amount: b0 },
            ) => a0 == b0,
            (
                EffectOp::Mark { tag: a0, duration_s: a1 },
                EffectOp::Mark { tag: b0, duration_s: b1 },
            ) => a0@ == b0@
                && a1 == b1,
            (EffectOp::Sequence(x), EffectOp::Sequence(y)) => x@.len() == y@.len() && forall|k: int|
                0 <= k < x@.len() ==> shown(#[trigger] x@[k]) == shown(y@[k]),
            (EffectOp::Parallel(x), EffectOp::Parallel(y)) => x@.len() == y@.len() && forall|k: int|
                0 <= k < x@.len() ==> shown(#[trigger] x@[k]) == shown(y@[k]),
            (
                EffectOp::Delay { secs: a0, then: a1 },
                EffectOp::Delay { secs: b0, then: b1 },
            ) => a0 == b0
                && shown(*a1) == shown(*b1),
            (
                EffectOp::Repeat { count: a0, interval_s: a1, op: a2 },
                EffectOp::Repeat { count: b0, interval_s: b1, op: b2 },
            ) => a0 == b0
                && a1 == b1
                && shown(*a2) == shown(*b2),
            (
                EffectOp::Chance { chance: a0, then: a1 },
                EffectOp::Chance { chance: b0, then: b1 },
            ) => a0 == b0
                && shown(*a1) == shown(*b1),
            (
                EffectOp::IfMarked { tag: a0, then: a1, otherwise: a2 },
                EffectOp::IfMarked { tag: b0, then: b1, otherwise: b2 },
            ) => a0@ == b0@
                && shown(*a1) == shown(*b1)
                && shown(*a2) == shown(*b2),
            (EffectOp::Noop, EffectOp::Noop) => true,
            _ => false,
        },
{
    shown_one_by_one(a, a.below().len());
    shown_one_by_one(b, b.below().len());
    if a is Sequence || a is Parallel {
        assert(shown_below(a, a.below().len()) == shown_below(b, b.below().len()));
        assert forall|k: int| 0 <= k < a.below().len() implies shown(#[trigger] a.below()[k]) == shown(
            b.below()[k],
        ) by {
            assert(shown_below(a, a.below().len())[k] == shown(a.below()[k]));
            assert(shown_below(b, b.below().len())[k] == shown(b.below()[k]));
        }
    }
}

/// What is written as `ray` has the numbers, names and ops that it was written with.
pub proof fn ray_is_as_written(range: i32, pierce: u8, then: EffectOp, r: EffectOp)
    requires
        call_ensures(ray, (range, pierce, then), r),
    ensures
        r matches EffectOp::Ray { range: x0, pierce: x1, then: x2 }
            && x0 == decimal(range as int, 3)
            && x1 == pierce
            && shown(*x2) == shown(then),
{
}

/// What is written as `projectile` has the numbers, names and ops that it was written with.
pub proof fn projectile_is_as_written(speed: i32, gravity: i32, radius: i32, lifetime_s: i32, homing: i32, on_hit: EffectOp, r: EffectOp)
    requires
        call_ensures(projectile, (speed, gravity, radius, lifetime_s, homing, on_hit), r),
    ensures
        r matches EffectOp::Projectile { speed: x0, gravity: x1, radius: x2, lifetime_s: x3, homing: x4, on_hit: x5 }
            && x0 == decimal(speed as int, 3)
            && x1 == decimal(gravity as int, 3)
            && x2 == decimal(radius as int, 3)
            && x3 == decimal(lifetime_s as int, 3)
            && x4 == decimal(homing as int, 3)
            && shown(*x5) == shown(on_hit),
{
}

/// What is written as `area` has the numbers, names and ops that it was written with.
pub proof fn area_is_as_written(radius: i32, faction: Faction, falloff: i32, then: EffectOp, r: EffectOp)
    requires
        call_ensures(area, (radius, faction, falloff, then), r),
    ensures
        r matches EffectOp::Area { radius: x0, faction: x1, falloff: x2, then: x3 }
            && x0 == decimal(radius as int, 3)
            && x1 == faction
            && x2 == decimal(falloff as int, 3)
            && shown(*x3) == shown(then),
{
}

/// What is written as `cone` has the numbers, names and ops that it was written with.
pub proof fn cone_is_as_written(range: i32, half_angle_rad: i32, faction: Faction, then: EffectOp, r: EffectOp)
    requires
        call_ensures(cone, (range, half_angle_rad, faction, then), r),
    ensures
        r matches EffectOp::Cone { range: x0, half_angle_rad: x1, faction: x2, then: x3 }
            && x0 == decimal(range as int, 3)
            && x1 == decimal(half_angle_rad as int, 3)
            && x2 == faction
            && shown(*x3) == shown(then),
{
}

/// What is written as `field` has the numbers, names and ops that it was written with.
pub proof fn field_is_as_written(radius: i32, duration_s: i32, interval_s: i32, faction: Faction, tick: EffectOp, r: EffectOp)
    requires
        call_ensures(field, (radius, duration_s, interval_s, faction, tick), r),
    ensures
        r matches EffectOp::Field { radius: x0, duration_s: x1, interval_s: x2, faction: x3, tick: x4 }
            && x0 == decimal(radius as int, 3)
            && x1 == decimal(duration_s as int, 3)
            && x2 == decimal(interval_s as int, 3)
            && x3 == faction
            && shown(*x4) == shown(tick),
{
}

/// What is written as `damage` has the numbers, names and ops that it was written with.
pub proof fn damage_is_as_written(amount: i32, element: &str, r: EffectOp)
    requires
        call_ensures(damage, (amount, element), r),
    ensures
        r matches EffectOp::Damage { amount: x0, element: x1 }
            && x0 == decimal(amount as int, 3)
            && x1@ == element@,
{
}

/// What is written as `heal` has the numbers, names and ops that it was written with.
pub proof fn heal_is_as_written(amount: i32, r: EffectOp)
    requires
        call_ensures(heal, (amount,), r),
    ensures
        r matches EffectOp::Heal { amount: x0 }
            && x0 == decimal(amount as int, 3),
{
}

/// What is written as `shield` has the numbers, names and ops that it was written with.
pub proof fn shield_is_as_written(amount: i32, duration_s: i32, r: EffectOp)
    requires
        call_ensures(shield, (amount, duration_s), r),
    ensures
        r matches EffectOp::Shield { amount: x0, duration_s: x1 }
            && x0 == decimal(amount as int, 3)
            && x1 == decimal(duration_s as int, 3),
{
}

/// What is written as `afflict` has the numbers, names and ops that it was written with.
pub proof fn afflict_is_as_written(status: &str, duration_s: i32, stacks: u8, r: EffectOp)
    requires
        call_ensures(afflict, (status, duration_s, stacks), r),
    ensures
        r matches EffectOp::ApplyStatus { status: x0, duration_s: x1, stacks: x2 }
            && x0@ == status@
            && x1 == decimal(duration_s as int, 3)
            && x2 == stacks,
{
}

/// What is written as `impulse` has the numbers, names and ops that it was written with.
pub proof fn impulse_is_as_written(force: i32, vertical_bias: i32, r: EffectOp)
    requires
        call_ensures(impulse, (force, vertical_bias), r),
    ensures
        r matches EffectOp::Impulse { force: x0, vertical_bias: x1 }
            && x0 == decimal(force as int, 3)
            && x1 == decimal(vertical_bias as int, 3),
{
}

/// What is written as `teleport` has the numbers, names and ops that it was written with.
pub proof fn teleport_is_as_written(max_distance: i32, to_target: bool, r: EffectOp)
    requires
        call_ensures(teleport, (max_distance, to_target), r),
    ensures
        r matches EffectOp::Teleport { max_distance: x0, to_target: x1 }
            && x0 == decimal(max_distance as int, 3)
            && x1 == to_target,
{
}

/// What is written as `summon` has the numbers, names and ops that it was written with.
pub proof fn summon_is_as_written(mob: &str, count: u8, duration_s: i32, r: EffectOp)
    requires
        call_ensures(summon, (mob, count, duration_s), r),
    ensures
        r matches EffectOp::Summon { mob: x0, count: x1, duration_s: x2 }
            && x0@ == mob@
            && x1 == count
            && x2 == decimal(duration_s as int, 3),
{
}

/// What is written as `restore_mana` has the numbers, names and ops that it was written with.
pub proof fn restore_mana_is_as_written(amount: i32, r: EffectOp)
    requires
        call_ensures(restore_mana, (amount,), r),
    ensures
        r matches EffectOp::RestoreMana { amount: x0 }
            && x0 == decimal(amount as int, 3),
{
}

/// What is written as `mark` has the numbers, names and ops that it was written with.
pub proof fn mark_is_as_written(tag: &str, duration_s: i32, r: EffectOp)
    requires
        call_ensures(mark, (tag, duration_s), r),
    ensures
        r matches EffectOp::Mark { tag: x0, duration_s: x1 }
            && x0@ == tag@
            && x1 == decimal(duration_s as int, 3),
{
}

/// What is written as `delay` has the numbers, names and ops that it was written with.
pub proof fn delay_is_as_written(secs: i32, then: EffectOp, r: EffectOp)
    requires
        call_ensures(delay, (secs, then), r),
    ensures
        r matches EffectOp::Delay { secs: x0, then: x1 }
            && x0 == decimal(secs as int, 3)
            && shown(*x1) == shown(then),
{
}

/// What is written as `repeat` has the numbers, names and ops that it was written with.
pub proof fn repeat_is_as_written(count: u16, interval_s: i32, op: EffectOp, r: EffectOp)
    requires
        call_ensures(repeat, (count, interval_s, op), r),
    ensures
        r matches EffectOp::Repeat { count: x0, interval_s: x1, op: x2 }
            && x0 == count
            && x1 == decimal(interval_s as int, 3)
            && shown(*x2) == shown(op),
{
}

/// What is written as `perhaps` has the numbers, names and ops that it was written with.
pub proof fn perhaps_is_as_written(chance: i32, then: EffectOp, r: EffectOp)
    requires
        call_ensures(perhaps, (chance, then), r),
    ensures
        r matches EffectOp::Chance { chance: x0, then: x1 }
            && x0 == decimal(chance as int, 3)
            && shown(*x1) == shown(then),
{
}

/// What is written as `if_marked` has the numbers, names and ops that it was written with.
pub proof fn if_marked_is_as_written(tag: &str, then: EffectOp, otherwise: EffectOp, r: EffectOp)
    requires
        call_ensures(if_marked, (tag, then, otherwise), r),
    ensures
        r matches EffectOp::IfMarked { tag: x0, then: x1, otherwise: x2 }
            && x0@ == tag@
            && shown(*x1) == shown(then)
            && shown(*x2) == shown(otherwise),
{
}

/// Ops that are written one after the other run in that order, and those written together run at once.
pub proof fn lists_are_as_written(
    a: EffectOp,
    b: EffectOp,
    c: EffectOp,
    two: EffectOp,
    three: EffectOp,
    together: EffectOp,
)
    requires
        call_ensures(both, (a, b), two),
        call_ensures(all_three, (a, b, c), three),
        call_ensures(at_once, (a, b), together),
    ensures
        two is Sequence && three is Sequence && together is Parallel,
        two.below().len() == 2 && three.below().len() == 3 && together.below().len() == 2,
        shown(two.below()[0]) == shown(a) && shown(two.below()[1]) == shown(b),
        shown(together.below()[0]) == shown(a) && shown(together.below()[1]) == shown(b),
        shown(three.below()[0]) == shown(a) && shown(three.below()[1]) == shown(b),
        shown(three.below()[2]) == shown(c),
{
    shown_one_by_one(two, two.below().len());
    shown_one_by_one(three, three.below().len());
    shown_one_by_one(together, together.below().len());
    assert(shown_below(two, two.below().len()) == seq![shown(a), shown(b)]);
    assert(shown_below(three, three.below().len()) == seq![shown(a), shown(b), shown(c)]);
    assert(shown_below(together, together.below().len()) == seq![shown(a), shown(b)]);
    assert(shown_below(two, two.below().len())[0] == shown(two.below()[0]));
    assert(shown_below(two, two.below().len())[1] == shown(two.below()[1]));
    assert(shown_below(three, three.below().len())[0] == shown(three.below()[0]));
    assert(shown_below(three, three.below().len())[1] == shown(three.below()[1]));
    assert(shown_below(three, three.below().len())[2] == shown(three.below()[2]));
    assert(shown_below(together, together.below().len())[0] == shown(together.below()[0]));
    assert(shown_below(together, together.below().len())[1] == shown(together.below()[1]));
}

/// In the rows of spells, every column goes where it belongs, and a spell is priced by its effects.
pub proof fn spells_are_read_by_column(row: SpellRow, root: EffectOp, r: SpellDef)
    requires
        call_ensures(spell, (row, root), r),
    ensures
        r.root == root,
        r.author_cost == root.cost(),
        r.id@ == row.0@,
        r.name@ == row.1@,
        r.description@ == row.2@,
        r.element@ == row.3@,
        r.mana_cost == decimal(row.4.0 as int, 3),
        r.cast_time == decimal(row.4.1 as int, 3),
        r.cooldown == decimal(row.4.2 as int, 3),
        r.channeled == row.5,
        r.scaling.power == decimal(row.6.0 as int, 3),
        r.scaling.focus == decimal(row.6.1 as int, 3),
        r.scaling.agility == decimal(row.6.2 as int, 3),
        r.scaling.level == decimal(row.6.3 as int, 3),
{
}

} // verus!
