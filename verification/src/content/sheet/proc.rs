//! Procs as rows.

use crate::content::ids::{ElementId, StatusId};
use crate::content::item::{ItemTrigger, ProcEffect, ProcWhen};
use crate::content::sheet::stats::{block, mods, Line, NONE};
use crate::content::sheet::{milli, read_some, thousandths, used};
use crate::text::same;
use crate::scalar::decimal;
use vstd::prelude::*;

verus! {

/// When a proc fires, numbers aside.
#[derive(Debug, Clone, Copy, PartialEq, Eq, Structural)]
pub enum When {
    OnHit,
    OnCrit,
    OnKill,
    OnCast,
    OnTakeDamage,
    OnLowHealth,
    OnDash,
    Aura,
    Interval,
}

/// What a proc does, names and numbers aside.
#[derive(Debug, Clone, Copy, PartialEq, Eq, Structural)]
pub enum Fx {
    BuffSelf,
    DebuffTarget,
    Nova,
    ChainBolt,
    Shield,
    TempStats,
}

/// What a proc does: its status or element, its two numbers in the order in which the effect
/// names them, its count, and the stats of a surge.
pub type FxRow = (Fx, &'static str, (i32, i32), u8, [Line; 2]);

/// `(label, (when, fraction or seconds), chance, seconds between, what it does)`. Without a
/// label there is no proc.
pub type ProcRow = (&'static str, (When, i32), i32, i32, FxRow);

/// No proc.
pub const NO_PROC: ProcRow = (
    "",
    (When::Aura, 0),
    0,
    0,
    (Fx::Shield, "", (0, 0), 0, [NONE, NONE]),
);

/// The moment that the row names.
pub open spec fn fires(row: (When, i32)) -> ProcWhen {
    match row.0 {
        When::OnHit => ProcWhen::OnHit,
        When::OnCrit => ProcWhen::OnCrit,
        When::OnKill => ProcWhen::OnKill,
        When::OnCast => ProcWhen::OnCast,
        When::OnTakeDamage => ProcWhen::OnTakeDamage,
        When::OnLowHealth => ProcWhen::OnLowHealth { frac: thousandths(row.1) },
        When::OnDash => ProcWhen::OnDash,
        When::Aura => ProcWhen::Aura,
        When::Interval => ProcWhen::Interval { secs: thousandths(row.1) },
    }
}

fn when(row: (When, i32)) -> (r: ProcWhen)
    ensures
        r == fires(row),
{
    match row.0 {
        When::OnHit => ProcWhen::OnHit,
        When::OnCrit => ProcWhen::OnCrit,
        When::OnKill => ProcWhen::OnKill,
        When::OnCast => ProcWhen::OnCast,
        When::OnTakeDamage => ProcWhen::OnTakeDamage,
        When::OnLowHealth => ProcWhen::OnLowHealth { frac: milli(row.1) },
        When::OnDash => ProcWhen::OnDash,
        When::Aura => ProcWhen::Aura,
        When::Interval => ProcWhen::Interval { secs: milli(row.1) },
    }
}

/// The effect is the one that the row names.
pub open spec fn does(e: ProcEffect, row: FxRow) -> bool {
    let a = thousandths(row.2.0);
    let b = thousandths(row.2.1);
    match e {
        ProcEffect::BuffSelf { status, duration_s, stacks } => row.0 == Fx::BuffSelf && status@
            == row.1@ && duration_s == a && stacks == row.3,
        ProcEffect::DebuffTarget { status, duration_s, stacks } => row.0 == Fx::DebuffTarget
            && status@ == row.1@ && duration_s == a && stacks == row.3,
        ProcEffect::Nova { element, radius, damage } => row.0 == Fx::Nova && element@ == row.1@
            && radius == a && damage == b,
        ProcEffect::ChainBolt { element, jumps, damage } => row.0 == Fx::ChainBolt && element@
            == row.1@ && jumps == row.3 && damage == a,
        ProcEffect::Shield { amount, duration_s } => row.0 == Fx::Shield && amount == a
            && duration_s == b,
        ProcEffect::TempStats { mods, duration_s } => row.0 == Fx::TempStats && *mods == block(
            row.4@,
        ) && duration_s == a,
        _ => false,
    }
}

fn effect(row: FxRow) -> (r: ProcEffect)
    ensures
        does(r, row),
{
    let a = milli(row.2.0);
    let b = milli(row.2.1);
    match row.0 {
        Fx::BuffSelf => ProcEffect::BuffSelf {
            status: StatusId::new(row.1),
            duration_s: a,
            stacks: row.3,
        },
        Fx::DebuffTarget => ProcEffect::DebuffTarget {
            status: StatusId::new(row.1),
            duration_s: a,
            stacks: row.3,
        },
        Fx::Nova => ProcEffect::Nova { element: ElementId::new(row.1), radius: a, damage: b },
        Fx::ChainBolt => ProcEffect::ChainBolt {
            element: ElementId::new(row.1),
            jumps: row.3,
            damage: a,
        },
        Fx::Shield => ProcEffect::Shield { amount: a, duration_s: b },
        Fx::TempStats => ProcEffect::TempStats {
            mods: Box::new(mods(row.4.as_slice())),
            duration_s: a,
        },
    }
}

/// The proc is what the row says.
pub open spec fn is_proc(t: ItemTrigger, row: ProcRow) -> bool {
    &&& t.label@ == row.0@
    &&& t.when == fires(row.1)
    &&& t.chance == thousandths(row.2)
    &&& t.icd_s == thousandths(row.3)
    &&& does(t.effect, row.4)
}

/// The proc is what the row says, or there is none.
pub open spec fn may_proc(t: Option<ItemTrigger>, row: ProcRow) -> bool {
    match t {
        Some(t) => row.0@ != ""@ && is_proc(t, row),
        None => row.0@ == ""@,
    }
}

/// The procs are the first `n` rows.
pub open spec fn are_procs(list: Seq<ItemTrigger>, n: u8, rows: Seq<ProcRow>) -> bool {
    &&& list.len() == used(n, rows.len())
    &&& forall|i: int| 0 <= i < list.len() ==> is_proc(#[trigger] list[i], rows[i])
}

/// Reads a row.
pub fn read_proc(row: ProcRow) -> (r: ItemTrigger)
    ensures
        is_proc(r, row),
{
    ItemTrigger {
        label: row.0.to_owned(),
        when: when(row.1),
        chance: milli(row.2),
        icd_s: milli(row.3),
        effect: effect(row.4),
    }
}

/// Reads a row that may be unused.
pub fn maybe_proc(row: ProcRow) -> (r: Option<ItemTrigger>)
    ensures
        may_proc(r, row),
{
    if same(row.0, "") {
        None
    } else {
        Some(read_proc(row))
    }
}

/// Reads the first `n` rows.
pub fn read_procs(n: u8, rows: &[ProcRow]) -> (r: Vec<ItemTrigger>)
    ensures
        are_procs(r@, n, rows@),
{
    read_some(n, rows, read_proc)
}

/// What a row names is what it is read as, with the row's own numbers and names.
pub proof fn does_as_the_row_names(e: ProcEffect, row: FxRow)
    requires
        does(e, row),
    ensures
        row.0 == Fx::BuffSelf ==> (e matches ProcEffect::BuffSelf { status, duration_s, stacks }
            && status@ == row.1@
            && duration_s == decimal(row.2.0 as int, 3)
            && stacks == row.3),
        row.0 == Fx::DebuffTarget ==> (e matches ProcEffect::DebuffTarget { status, duration_s, stacks }
            && status@ == row.1@
            && duration_s == decimal(row.2.0 as int, 3)
            && stacks == row.3),
        row.0 == Fx::Nova ==> (e matches ProcEffect::Nova { element, radius, damage }
            && element@ == row.1@
            && radius == decimal(row.2.0 as int, 3)
            && damage == decimal(row.2.1 as int, 3)),
        row.0 == Fx::ChainBolt ==> (e matches ProcEffect::ChainBolt { element, jumps, damage }
            && element@ == row.1@
            && jumps == row.3
            && damage == decimal(row.2.0 as int, 3)),
        row.0 == Fx::Shield ==> (e matches ProcEffect::Shield { amount, duration_s }
            && amount == decimal(row.2.0 as int, 3)
            && duration_s == decimal(row.2.1 as int, 3)),
        row.0 == Fx::TempStats ==> (e matches ProcEffect::TempStats { mods, duration_s }
            && *mods == block(row.4@)
            && duration_s == decimal(row.2.0 as int, 3)),
{
}

/// In the rows of procs, every column goes where it belongs.
pub proof fn procs_are_read_by_column(row: ProcRow, r: ItemTrigger)
    requires
        call_ensures(read_proc, (row,), r),
    ensures
        r.label@ == row.0@,
        r.when == fires(row.1),
        r.chance == decimal(row.2 as int, 3),
        r.icd_s == decimal(row.3 as int, 3),
        does(r.effect, row.4),
{
}

/// A proc fires when its row says, at the row's own fraction or interval.
pub proof fn procs_fire_as_named(row: (When, i32))
    ensures
        row.0 is OnHit <==> fires(row) is OnHit,
        row.0 is OnCrit <==> fires(row) is OnCrit,
        row.0 is OnKill <==> fires(row) is OnKill,
        row.0 is OnCast <==> fires(row) is OnCast,
        row.0 is OnTakeDamage <==> fires(row) is OnTakeDamage,
        row.0 is OnDash <==> fires(row) is OnDash,
        row.0 is Aura <==> fires(row) is Aura,
        row.0 is OnLowHealth <==> fires(row) == (ProcWhen::OnLowHealth {
            frac: decimal(row.1 as int, 3),
        }),
        row.0 is Interval <==> fires(row) == (ProcWhen::Interval { secs: decimal(row.1 as int, 3) }),
{
}

/// A row without a label is no proc, and any other is one.
pub proof fn unlabelled_procs_are_none(row: ProcRow, r: Option<ItemTrigger>)
    requires
        call_ensures(maybe_proc, (row,), r),
    ensures
        row.0@.len() == 0 <==> r is None,
        r matches Some(t) ==> t.label@ == row.0@,
{
    reveal_strlit("");
    if row.0@.len() == 0 {
        assert(row.0@ =~= ""@);
    }
}

} // verus!
