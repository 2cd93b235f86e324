//! Missions as rows.

use crate::content::ids::{ItemId, MissionId};
use crate::content::mission::{MissionDef, Objective};
use crate::content::sheet::{
    all_thousandths, count, counts, milli, milli3, read_some, refer, refers, thousandths, used,
};
use crate::scalar::decimal;
use vstd::prelude::*;

verus! {

/// What an objective asks for, names and numbers aside.
#[derive(Debug, Clone, Copy, PartialEq, Eq, Structural)]
pub enum Goal {
    Kill,
    Collect,
    ReachPoint,
    Survive,
    CastSpell,
    Explore,
}

/// `(what, name, how many, metres or seconds, point)`.
pub type GoalRow = (Goal, &'static str, u32, i32, [i32; 3]);

/// An unused place.
pub const NO_GOAL: GoalRow = (Goal::Explore, "", 0, 0, [0, 0, 0]);

/// `(id, name, briefing, objectives, experience, items, tech points, level, whether it can be
/// taken again)`.
pub type MissionRow = (
    &'static str,
    &'static str,
    &'static str,
    (u8, [GoalRow; 3]),
    u32,
    (u8, [(&'static str, u16); 1]),
    u32,
    u32,
    bool,
);

/// The objective is the one that the row names.
pub open spec fn asks(o: Objective, row: GoalRow) -> bool {
    match o {
        Objective::Kill { mob, count } => row.0 == Goal::Kill && refers(mob, row.1@) && count
            == row.2,
        Objective::Collect { item, count } => row.0 == Goal::Collect && item@ == row.1@ && count
            == row.2,
        Objective::ReachPoint { point, radius } => row.0 == Goal::ReachPoint && point@
            == all_thousandths(row.4@) && radius == thousandths(row.3),
        Objective::Survive { seconds } => row.0 == Goal::Survive && seconds == thousandths(row.3),
        Objective::CastSpell { spell, count } => row.0 == Goal::CastSpell && refers(spell, row.1@)
            && count == row.2,
        Objective::Explore { zone_count } => row.0 == Goal::Explore && zone_count == row.2,
    }
}

fn goal(row: GoalRow) -> (r: Objective)
    ensures
        asks(r, row),
{
    match row.0 {
        Goal::Kill => Objective::Kill { mob: refer(row.1), count: row.2 },
        Goal::Collect => Objective::Collect { item: ItemId::new(row.1), count: row.2 },
        Goal::ReachPoint => Objective::ReachPoint { point: milli3(row.4), radius: milli(row.3) },
        Goal::Survive => Objective::Survive { seconds: milli(row.3) },
        Goal::CastSpell => Objective::CastSpell { spell: refer(row.1), count: row.2 },
        Goal::Explore => Objective::Explore { zone_count: row.2 },
    }
}

/// The objectives are the first `n` rows.
pub open spec fn all_asks(list: Seq<Objective>, n: u8, rows: Seq<GoalRow>) -> bool {
    &&& list.len() == used(n, rows.len())
    &&& forall|i: int| 0 <= i < list.len() ==> asks(#[trigger] list[i], rows[i])
}

/// The definition is what the row says.
pub open spec fn is_mission(d: MissionDef, row: MissionRow) -> bool {
    &&& d.id@ == row.0@
    &&& d.name@ == row.1@
    &&& d.description@ == row.2@
    &&& all_asks(d.objectives@, row.3.0, row.3.1@)
    &&& d.xp_reward == row.4
    &&& counts(d.item_rewards@, row.5.0, row.5.1@)
    &&& d.tech_points == row.6
    &&& d.level_req == row.7
    &&& d.repeatable == row.8
}

/// The list is what the table says.
pub open spec fn are_missions(list: Seq<MissionDef>, rows: Seq<MissionRow>) -> bool {
    &&& list.len() == rows.len()
    &&& forall|i: int| 0 <= i < list.len() ==> is_mission(#[trigger] list[i], rows[i])
}

/// Reads a row.
pub fn mission(row: MissionRow) -> (r: MissionDef)
    ensures
        is_mission(r, row),
{
    MissionDef {
        id: MissionId::new(row.0),
        name: row.1.to_owned(),
        description: row.2.to_owned(),
        objectives: read_some(row.3.0, row.3.1.as_slice(), goal),
        xp_reward: row.4,
        item_rewards: count(row.5.0, row.5.1.as_slice()),
        tech_points: row.6,
        level_req: row.7,
        repeatable: row.8,
    }
}

/// What a row names is what it is read as, with the row's own numbers and names.
pub proof fn asks_as_the_row_names(o: Objective, row: GoalRow)
    requires
        asks(o, row),
    ensures
        row.0 == Goal::Kill ==> (o matches Objective::Kill { mob, count }
            && refers(mob, row.1@)
            && count == row.2),
        row.0 == Goal::Collect ==> (o matches Objective::Collect { item, count }
            && item@ == row.1@
            && count == row.2),
        row.0 == Goal::ReachPoint ==> (o matches Objective::ReachPoint { point, radius }
            && point@ == all_thousandths(row.4@)
            && radius == decimal(row.3 as int, 3)),
        row.0 == Goal::Survive ==> (o matches Objective::Survive { seconds }
            && seconds == decimal(row.3 as int, 3)),
        row.0 == Goal::CastSpell ==> (o matches Objective::CastSpell { spell, count }
            && refers(spell, row.1@)
            && count == row.2),
        row.0 == Goal::Explore ==> (o matches Objective::Explore { zone_count }
            && zone_count == row.2),
{
}

/// In the rows of missions, every column goes where it belongs.
pub proof fn missions_are_read_by_column(row: MissionRow, r: MissionDef)
    requires
        call_ensures(mission, (row,), r),
    ensures
        r.id@ == row.0@,
        r.name@ == row.1@,
        r.description@ == row.2@,
        all_asks(r.objectives@, row.3.0, row.3.1@),
        r.xp_reward == row.4,
        counts(r.item_rewards@, row.5.0, row.5.1@),
        r.tech_points == row.6,
        r.level_req == row.7,
        r.repeatable == row.8,
{
}

} // verus!
