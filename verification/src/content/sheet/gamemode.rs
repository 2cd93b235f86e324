//! Game modes as rows.

use crate::content::gamemode::{GameModeDef, ScoringRule, TeamConfig, WinCondition};
use crate::content::ids::GameModeId;
use crate::content::sheet::{count, counts, list, lists, milli, read_some, thousandths, used};
use crate::scalar::decimal;
use vstd::prelude::*;

verus! {

/// How a match is won, numbers aside.
#[derive(Debug, Clone, Copy, PartialEq, Eq, Structural)]
pub enum Win {
    TimeLimit,
    LastTeamStanding,
}

/// What scores, points aside.
#[derive(Debug, Clone, Copy, PartialEq, Eq, Structural)]
pub enum Score {
    Kill,
    Assist,
    FirstBlood,
}

/// `(id, name, description, (teams, whether they can hurt their own), (how it is won,
/// seconds), scoring, seconds to respawn, (whether kills drop loot, how much of it),
/// abilities, items, (whether players can fight, whether waves come))`. No teams means every
/// mage for themselves.
pub type ModeRow = (
    &'static str,
    &'static str,
    &'static str,
    (u8, bool),
    (Win, i32),
    (u8, [(Score, i32); 2]),
    i32,
    (bool, i32),
    (u8, [&'static str; 2]),
    (u8, [(&'static str, u16); 2]),
    (bool, bool),
);

/// The teams that the row says.
pub open spec fn teamed(row: (u8, bool)) -> TeamConfig {
    if row.0 == 0 {
        TeamConfig::FreeForAll
    } else {
        TeamConfig::Teams { count: row.0, friendly_fire: row.1 }
    }
}

/// The condition that the row names.
pub open spec fn won(row: (Win, i32)) -> WinCondition {
    match row.0 {
        Win::TimeLimit => WinCondition::TimeLimit { seconds: thousandths(row.1) },
        Win::LastTeamStanding => WinCondition::LastTeamStanding,
    }
}

/// The scoring rule that the row names.
pub open spec fn scored(row: (Score, i32)) -> ScoringRule {
    match row.0 {
        Score::Kill => ScoringRule::KillPoints { points: row.1 },
        Score::Assist => ScoringRule::AssistPoints { points: row.1 },
        Score::FirstBlood => ScoringRule::FirstBloodBonus { points: row.1 },
    }
}

fn score(row: (Score, i32)) -> (r: ScoringRule)
    ensures
        r == scored(row),
{
    match row.0 {
        Score::Kill => ScoringRule::KillPoints { points: row.1 },
        Score::Assist => ScoringRule::AssistPoints { points: row.1 },
        Score::FirstBlood => ScoringRule::FirstBloodBonus { points: row.1 },
    }
}

/// The rules are the first `n` rows.
pub open spec fn all_scored(list: Seq<ScoringRule>, n: u8, rows: Seq<(Score, i32)>) -> bool {
    &&& list.len() == used(n, rows.len())
    &&& forall|i: int| 0 <= i < list.len() ==> #[trigger] list[i] == scored(rows[i])
}

/// The definition is what the row says.
pub open spec fn is_mode(d: GameModeDef, row: ModeRow) -> bool {
    &&& d.id@ == row.0@
    &&& d.name@ == row.1@
    &&& d.description@ == row.2@
    &&& d.teams == teamed(row.3)
    &&& d.win == won(row.4)
    &&& all_scored(d.scoring@, row.5.0, row.5.1@)
    &&& d.respawn_seconds == thousandths(row.6)
    &&& d.allow_loot_drops == row.7.0
    &&& d.loot_multiplier == thousandths(row.7.1)
    &&& lists(d.starting_loadout@, row.8.0, row.8.1@)
    &&& counts(d.starting_items@, row.9.0, row.9.1@)
    &&& d.pvp_enabled == row.10.0
    &&& d.mob_waves == row.10.1
}

/// The list is what the table says.
pub open spec fn are_modes(list: Seq<GameModeDef>, rows: Seq<ModeRow>) -> bool {
    &&& list.len() == rows.len()
    &&& forall|i: int| 0 <= i < list.len() ==> is_mode(#[trigger] list[i], rows[i])
}

/// Reads a row.
pub fn mode(row: ModeRow) -> (r: GameModeDef)
    ensures
        is_mode(r, row),
{
    GameModeDef {
        id: GameModeId::new(row.0),
        name: row.1.to_owned(),
        description: row.2.to_owned(),
        teams: if row.3.0 == 0 {
            TeamConfig::FreeForAll
        } else {
            TeamConfig::Teams { count: row.3.0, friendly_fire: row.3.1 }
        },
        win: match row.4.0 {
            Win::TimeLimit => WinCondition::TimeLimit { seconds: milli(row.4.1) },
            Win::LastTeamStanding => WinCondition::LastTeamStanding,
        },
        scoring: read_some(row.5.0, row.5.1.as_slice(), score),
        respawn_seconds: milli(row.6),
        allow_loot_drops: row.7.0,
        loot_multiplier: milli(row.7.1),
        starting_loadout: list(row.8.0, row.8.1.as_slice()),
        starting_items: count(row.9.0, row.9.1.as_slice()),
        pvp_enabled: row.10.0,
        mob_waves: row.10.1,
    }
}

/// In the rows of modes, every column goes where it belongs.
pub proof fn modes_are_read_by_column(row: ModeRow, r: GameModeDef)
    requires
        call_ensures(mode, (row,), r),
    ensures
        r.id@ == row.0@,
        r.name@ == row.1@,
        r.description@ == row.2@,
        r.teams == teamed(row.3),
        r.win == won(row.4),
        all_scored(r.scoring@, row.5.0, row.5.1@),
        r.respawn_seconds == decimal(row.6 as int, 3),
        r.allow_loot_drops == row.7.0,
        r.loot_multiplier == decimal(row.7.1 as int, 3),
        lists(r.starting_loadout@, row.8.0, row.8.1@),
        counts(r.starting_items@, row.9.0, row.9.1@),
        r.pvp_enabled == row.10.0,
        r.mob_waves == row.10.1,
{
}

/// A row of no teams is a free-for-all; otherwise there are as many as it says. What wins and what
/// scores is what the row names, by the row's own number.
pub proof fn rules_are_what_rows_name(teams: (u8, bool), win: (Win, i32), score: (Score, i32))
    ensures
        teams.0 == 0 <==> teamed(teams) is FreeForAll,
        teamed(teams) matches TeamConfig::Teams { count, friendly_fire } ==> count == teams.0
            && friendly_fire == teams.1,
        win.0 is TimeLimit <==> won(win) is TimeLimit,
        win.0 is LastTeamStanding <==> won(win) is LastTeamStanding,
        won(win) matches WinCondition::TimeLimit { seconds } ==> seconds == decimal(win.1 as int, 3),
        score.0 is Kill <==> scored(score) == (ScoringRule::KillPoints { points: score.1 }),
        score.0 is Assist <==> scored(score) == (ScoringRule::AssistPoints { points: score.1 }),
        score.0 is FirstBlood <==> scored(score) == (ScoringRule::FirstBloodBonus { points: score.1 }),
{
}

} // verus!
