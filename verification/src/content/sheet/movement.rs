//! Movement modes as rows.

use crate::content::ids::MovementModeId;
use crate::content::movement::{MovementKind, MovementModeDef};
use crate::content::sheet::{milli, thousandths};
use crate::scalar::decimal;
use vstd::prelude::*;

verus! {

/// What a mode does, its numbers aside.
#[derive(Debug, Clone, Copy, PartialEq, Eq, Structural)]
pub enum Move {
    Dash,
    DoubleJump,
    WallRun,
    Grapple,
    Glide,
    Blink,
    Climb,
    GroundSlam,
    Slide,
    Sprint,
}

/// What a mode does: the jumps that it adds, and its other numbers in the order in which
/// the kind of movement names them.
pub type MoveRow = (Move, u8, [i32; 3]);

/// `(id, name, what it does, mana, seconds to recover, stamina)`.
pub type MovementRow = (&'static str, &'static str, MoveRow, i32, i32, i32);

/// The movement is the one that the row names.
pub open spec fn moves(kind: MovementKind, row: MoveRow) -> bool {
    let a = thousandths(row.2@[0]);
    let b = thousandths(row.2@[1]);
    let c = thousandths(row.2@[2]);
    match row.0 {
        Move::Dash => kind == (MovementKind::Dash { distance: a, speed: b }),
        Move::DoubleJump => kind == (MovementKind::DoubleJump { extra_jumps: row.1, impulse: a }),
        Move::WallRun => kind == (MovementKind::WallRun { max_time_s: a, speed: b, gravity_mult: c }),
        Move::Grapple => kind == (MovementKind::Grapple { range: a, pull_speed: b }),
        Move::Glide => kind == (MovementKind::Glide { fall_mult: a, forward_boost: b }),
        Move::Blink => kind == (MovementKind::Blink { distance: a }),
        Move::Climb => kind == (MovementKind::Climb { speed: a }),
        Move::GroundSlam => kind == (MovementKind::GroundSlam {
            damage: a,
            radius: b,
            down_speed: c,
        }),
        Move::Slide => kind == (MovementKind::Slide { speed: a, duration_s: b }),
        Move::Sprint => kind == (MovementKind::Sprint { speed_mult: a }),
    }
}

fn moving(row: MoveRow) -> (r: MovementKind)
    ensures
        moves(r, row),
{
    let a = milli(row.2[0]);
    let b = milli(row.2[1]);
    let c = milli(row.2[2]);
    match row.0 {
        Move::Dash => MovementKind::Dash { distance: a, speed: b },
        Move::DoubleJump => MovementKind::DoubleJump { extra_jumps: row.1, impulse: a },
        Move::WallRun => MovementKind::WallRun { max_time_s: a, speed: b, gravity_mult: c },
        Move::Grapple => MovementKind::Grapple { range: a, pull_speed: b },
        Move::Glide => MovementKind::Glide { fall_mult: a, forward_boost: b },
        Move::Blink => MovementKind::Blink { distance: a },
        Move::Climb => MovementKind::Climb { speed: a },
        Move::GroundSlam => MovementKind::GroundSlam { damage: a, radius: b, down_speed: c },
        Move::Slide => MovementKind::Slide { speed: a, duration_s: b },
        Move::Sprint => MovementKind::Sprint { speed_mult: a },
    }
}

/// The definition is what the row says.
pub open spec fn is_movement(d: MovementModeDef, row: MovementRow) -> bool {
    &&& d.id@ == row.0@
    &&& d.name@ == row.1@
    &&& moves(d.kind, row.2)
    &&& d.mana_cost == thousandths(row.3)
    &&& d.cooldown == thousandths(row.4)
    &&& d.stamina_cost == thousandths(row.5)
}

/// The list is what the table says.
pub open spec fn are_movements(list: Seq<MovementModeDef>, rows: Seq<MovementRow>) -> bool {
    &&& list.len() == rows.len()
    &&& forall|i: int| 0 <= i < list.len() ==> is_movement(#[trigger] list[i], rows[i])
}

/// Reads a row.
pub fn movement(row: MovementRow) -> (r: MovementModeDef)
    ensures
        is_movement(r, row),
{
    MovementModeDef {
        id: MovementModeId::new(row.0),
        name: row.1.to_owned(),
        kind: moving(row.2),
        mana_cost: milli(row.3),
        cooldown: milli(row.4),
        stamina_cost: milli(row.5),
    }
}

/// In the rows of movement modes, every column goes where it belongs.
pub proof fn movement_modes_are_read_by_column(row: MovementRow, r: MovementModeDef)
    requires
        call_ensures(movement, (row,), r),
    ensures
        r.id@ == row.0@,
        r.name@ == row.1@,
        moves(r.kind, row.2),
        r.mana_cost == decimal(row.3 as int, 3),
        r.cooldown == decimal(row.4 as int, 3),
        r.stamina_cost == decimal(row.5 as int, 3),
{
}

} // verus!
