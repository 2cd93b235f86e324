//! Status effects as rows.

use crate::content::ids::{ElementId, StatusId};
use crate::content::sheet::{milli, refer, refers, thousandths};
use crate::content::status::{StatusEffectDef, StatusKind};
use crate::scalar::decimal;
use vstd::prelude::*;

verus! {

/// What a status does, its numbers and element aside.
#[derive(Debug, Clone, Copy, PartialEq, Eq, Structural)]
pub enum Ail {
    DamageOverTime,
    Slow,
    Haste,
    Root,
    Silence,
    Levitate,
    Burning,
    Frozen,
    Regen,
    ManaBurn,
    Vulnerable,
    Empower,
    Invisible,
    Shielded,
}

/// `(id, name, (what it does, how much, of which element), most stacks, seconds between
/// ticks, seconds it lasts, whether it helps, material)`.
pub type StatusRow = (
    &'static str,
    &'static str,
    (Ail, i32, &'static str),
    u8,
    i32,
    i32,
    bool,
    &'static str,
);

/// The mechanic is the one that the row names.
pub open spec fn ails(kind: StatusKind, row: (Ail, i32, &'static str)) -> bool {
    match kind {
        StatusKind::DamageOverTime { element, dps } => row.0 == Ail::DamageOverTime && element@
            == row.2@ && dps == thousandths(row.1),
        StatusKind::Slow { frac } => row.0 == Ail::Slow && frac == thousandths(row.1),
        StatusKind::Haste { frac } => row.0 == Ail::Haste && frac == thousandths(row.1),
        StatusKind::Root => row.0 == Ail::Root,
        StatusKind::Silence => row.0 == Ail::Silence,
        StatusKind::Levitate => row.0 == Ail::Levitate,
        StatusKind::Burning { dps } => row.0 == Ail::Burning && dps == thousandths(row.1),
        StatusKind::Frozen => row.0 == Ail::Frozen,
        StatusKind::Regen { hps } => row.0 == Ail::Regen && hps == thousandths(row.1),
        StatusKind::ManaBurn { mps } => row.0 == Ail::ManaBurn && mps == thousandths(row.1),
        StatusKind::Vulnerable { frac } => row.0 == Ail::Vulnerable && frac == thousandths(row.1),
        StatusKind::Empower { frac } => row.0 == Ail::Empower && frac == thousandths(row.1),
        StatusKind::Invisible => row.0 == Ail::Invisible,
        StatusKind::Shielded { amount } => row.0 == Ail::Shielded && amount == thousandths(row.1),
    }
}

fn ail(row: (Ail, i32, &'static str)) -> (r: StatusKind)
    ensures
        ails(r, row),
{
    let n = milli(row.1);
    match row.0 {
        Ail::DamageOverTime => StatusKind::DamageOverTime {
            element: ElementId::new(row.2),
            dps: n,
        },
        Ail::Slow => StatusKind::Slow { frac: n },
        Ail::Haste => StatusKind::Haste { frac: n },
        Ail::Root => StatusKind::Root,
        Ail::Silence => StatusKind::Silence,
        Ail::Levitate => StatusKind::Levitate,
        Ail::Burning => StatusKind::Burning { dps: n },
        Ail::Frozen => StatusKind::Frozen,
        Ail::Regen => StatusKind::Regen { hps: n },
        Ail::ManaBurn => StatusKind::ManaBurn { mps: n },
        Ail::Vulnerable => StatusKind::Vulnerable { frac: n },
        Ail::Empower => StatusKind::Empower { frac: n },
        Ail::Invisible => StatusKind::Invisible,
        Ail::Shielded => StatusKind::Shielded { amount: n },
    }
}

/// The definition is what the row says.
pub open spec fn is_status(d: StatusEffectDef, row: StatusRow) -> bool {
    &&& d.id@ == row.0@
    &&& d.name@ == row.1@
    &&& ails(d.kind, row.2)
    &&& d.max_stacks == row.3
    &&& d.tick_interval_s == thousandths(row.4)
    &&& d.duration_default_s == thousandths(row.5)
    &&& d.beneficial == row.6
    &&& refers(d.material, row.7@)
}

/// The list is what the table says.
pub open spec fn are_statuses(list: Seq<StatusEffectDef>, rows: Seq<StatusRow>) -> bool {
    &&& list.len() == rows.len()
    &&& forall|i: int| 0 <= i < list.len() ==> is_status(#[trigger] list[i], rows[i])
}

/// The ids that the table defines.
pub open spec fn status_names(rows: Seq<StatusRow>) -> Set<Seq<char>> {
    Set::new(|k: Seq<char>| exists|i: int| 0 <= i < rows.len() && #[trigger] rows[i].0@ == k)
}

/// Reads a row.
pub fn status(row: StatusRow) -> (r: StatusEffectDef)
    ensures
        is_status(r, row),
{
    StatusEffectDef {
        id: StatusId::new(row.0),
        name: row.1.to_owned(),
        kind: ail(row.2),
        max_stacks: row.3,
        tick_interval_s: milli(row.4),
        duration_default_s: milli(row.5),
        beneficial: row.6,
        material: refer(row.7),
    }
}

/// What a row names is what it is read as, with the row's own numbers and names.
pub proof fn ails_as_the_row_names(kind: StatusKind, row: (Ail, i32, &'static str))
    requires
        ails(kind, row),
    ensures
        row.0 == Ail::DamageOverTime ==> (kind matches StatusKind::DamageOverTime { element, dps }
            && element@ == row.2@
            && dps == decimal(row.1 as int, 3)),
        row.0 == Ail::Slow ==> (kind matches StatusKind::Slow { frac }
            && frac == decimal(row.1 as int, 3)),
        row.0 == Ail::Haste ==> (kind matches StatusKind::Haste { frac }
            && frac == decimal(row.1 as int, 3)),
        row.0 == Ail::Root ==> (kind matches StatusKind::Root),
        row.0 == Ail::Silence ==> (kind matches StatusKind::Silence),
        row.0 == Ail::Levitate ==> (kind matches StatusKind::Levitate),
        row.0 == Ail::Burning ==> (kind matches StatusKind::Burning { dps }
            && dps == decimal(row.1 as int, 3)),
        row.0 == Ail::Frozen ==> (kind matches StatusKind::Frozen),
        row.0 == Ail::Regen ==> (kind matches StatusKind::Regen { hps }
            && hps == decimal(row.1 as int, 3)),
        row.0 == Ail::ManaBurn ==> (kind matches StatusKind::ManaBurn { mps }
            && mps == decimal(row.1 as int, 3)),
        row.0 == Ail::Vulnerable ==> (kind matches StatusKind::Vulnerable { frac }
            && frac == decimal(row.1 as int, 3)),
        row.0 == Ail::Empower ==> (kind matches StatusKind::Empower { frac }
            && frac == decimal(row.1 as int, 3)),
        row.0 == Ail::Invisible ==> (kind matches StatusKind::Invisible),
        row.0 == Ail::Shielded ==> (kind matches StatusKind::Shielded { amount }
            && amount == decimal(row.1 as int, 3)),
{
}

/// In the rows of statuses, every column goes where it belongs.
pub proof fn statuses_are_read_by_column(row: StatusRow, r: StatusEffectDef)
    requires
        call_ensures(status, (row,), r),
    ensures
        r.id@ == row.0@,
        r.name@ == row.1@,
        ails(r.kind, row.2),
        r.max_stacks == row.3,
        r.tick_interval_s == decimal(row.4 as int, 3),
        r.duration_default_s == decimal(row.5 as int, 3),
        r.beneficial == row.6,
        refers(r.material, row.7@),
{
}

} // verus!
