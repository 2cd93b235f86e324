//! Triggers as rows.

use crate::content::ids::{ItemId, MobId, SpellId, StatusId, TechNodeId, TriggerId};
use crate::content::sheet::{milli, read_some, thousandths, used};
use crate::content::triggers::{GameTrigger, RuleAction, TriggerCondition, TriggerDef};
use crate::scalar::decimal;
use vstd::prelude::*;

verus! {

/// The event that a trigger waits for, names and numbers aside.
#[derive(Debug, Clone, Copy, PartialEq, Eq, Structural)]
pub enum Event {
    Kill,
    Death,
    ZoneEnter,
    Timer,
    SpellCast,
}

/// A need, names and numbers aside.
#[derive(Debug, Clone, Copy, PartialEq, Eq, Structural)]
pub enum Need {
    MinLevel,
    HasTech,
    Chance,
    InBiome,
}

/// An action, names and numbers aside.
#[derive(Debug, Clone, Copy, PartialEq, Eq, Structural)]
pub enum Act {
    GrantItem,
    ApplyStatus,
    SpawnMob,
    Broadcast,
}

/// `(event, name, seconds between)`.
pub type EventRow = (Event, &'static str, i32);

/// `(need, name, level, chance)`.
pub type NeedRow = (Need, &'static str, u32, i32);

/// `(action, name or message, how many, seconds)`.
pub type ActRow = (Act, &'static str, u8, i32);

/// An unused place.
pub const NO_NEED: NeedRow = (Need::MinLevel, "", 0, 0);

/// An unused place.
pub const NO_ACT: ActRow = (Act::Broadcast, "", 0, 0);

/// `(id, name, event, conditions, actions, whether it fires once per player)`.
pub type TriggerRow = (
    &'static str,
    &'static str,
    EventRow,
    (u8, [NeedRow; 2]),
    (u8, [ActRow; 2]),
    bool,
);

/// The event is the one that the row names.
pub open spec fn fires_on(on: GameTrigger, row: EventRow) -> bool {
    match on {
        GameTrigger::OnKill => row.0 == Event::Kill,
        GameTrigger::OnDeath => row.0 == Event::Death,
        GameTrigger::OnZoneEnter { zone_tag } => row.0 == Event::ZoneEnter && zone_tag@ == row.1@,
        GameTrigger::OnTimer { interval_s } => row.0 == Event::Timer && interval_s == thousandths(
            row.2,
        ),
        GameTrigger::OnSpellCast { spell } => row.0 == Event::SpellCast && spell@ == row.1@,
        _ => false,
    }
}

fn event(row: EventRow) -> (r: GameTrigger)
    ensures
        fires_on(r, row),
{
    match row.0 {
        Event::Kill => GameTrigger::OnKill,
        Event::Death => GameTrigger::OnDeath,
        Event::ZoneEnter => GameTrigger::OnZoneEnter { zone_tag: row.1.to_owned() },
        Event::Timer => GameTrigger::OnTimer { interval_s: milli(row.2) },
        Event::SpellCast => GameTrigger::OnSpellCast { spell: SpellId::new(row.1) },
    }
}

/// The need is the one that the row names.
pub open spec fn needed(c: TriggerCondition, row: NeedRow) -> bool {
    match c {
        TriggerCondition::MinLevel { level } => row.0 == Need::MinLevel && level == row.2,
        TriggerCondition::HasTech { node } => row.0 == Need::HasTech && node@ == row.1@,
        TriggerCondition::Chance { p } => row.0 == Need::Chance && p == thousandths(row.3),
        TriggerCondition::InBiome { name } => row.0 == Need::InBiome && name@ == row.1@,
        _ => false,
    }
}

fn need(row: NeedRow) -> (r: TriggerCondition)
    ensures
        needed(r, row),
{
    match row.0 {
        Need::MinLevel => TriggerCondition::MinLevel { level: row.2 },
        Need::HasTech => TriggerCondition::HasTech { node: TechNodeId::new(row.1) },
        Need::Chance => TriggerCondition::Chance { p: milli(row.3) },
        Need::InBiome => TriggerCondition::InBiome { name: row.1.to_owned() },
    }
}

/// The action is the one that the row names.
pub open spec fn acts(a: RuleAction, row: ActRow) -> bool {
    match a {
        RuleAction::GrantItem { item, count } => row.0 == Act::GrantItem && item@ == row.1@ && count
            == row.2,
        RuleAction::ApplyStatus { status, duration_s } => row.0 == Act::ApplyStatus && status@
            == row.1@ && duration_s == thousandths(row.3),
        RuleAction::SpawnMob { mob, count } => row.0 == Act::SpawnMob && mob@ == row.1@ && count
            == row.2,
        RuleAction::Broadcast { message } => row.0 == Act::Broadcast && message@ == row.1@,
        _ => false,
    }
}

fn act(row: ActRow) -> (r: RuleAction)
    ensures
        acts(r, row),
{
    match row.0 {
        Act::GrantItem => RuleAction::GrantItem { item: ItemId::new(row.1), count: row.2 as u16 },
        Act::ApplyStatus => RuleAction::ApplyStatus {
            status: StatusId::new(row.1),
            duration_s: milli(row.3),
        },
        Act::SpawnMob => RuleAction::SpawnMob { mob: MobId::new(row.1), count: row.2 },
        Act::Broadcast => RuleAction::Broadcast { message: row.1.to_owned() },
    }
}

/// The conditions are the first `n` rows.
pub open spec fn all_needed(list: Seq<TriggerCondition>, n: u8, rows: Seq<NeedRow>) -> bool {
    &&& list.len() == used(n, rows.len())
    &&& forall|i: int| 0 <= i < list.len() ==> needed(#[trigger] list[i], rows[i])
}

/// The actions are the first `n` rows.
pub open spec fn all_acts(list: Seq<RuleAction>, n: u8, rows: Seq<ActRow>) -> bool {
    &&& list.len() == used(n, rows.len())
    &&& forall|i: int| 0 <= i < list.len() ==> acts(#[trigger] list[i], rows[i])
}

/// The definition is what the row says.
pub open spec fn is_trigger(d: TriggerDef, row: TriggerRow) -> bool {
    &&& d.id@ == row.0@
    &&& d.name@ == row.1@
    &&& fires_on(d.on, row.2)
    &&& all_needed(d.conditions@, row.3.0, row.3.1@)
    &&& all_acts(d.actions@, row.4.0, row.4.1@)
    &&& d.once_per_player == row.5
}

/// The list is what the table says.
pub open spec fn are_triggers(list: Seq<TriggerDef>, rows: Seq<TriggerRow>) -> bool {
    &&& list.len() == rows.len()
    &&& forall|i: int| 0 <= i < list.len() ==> is_trigger(#[trigger] list[i], rows[i])
}

/// Reads a row.
pub fn rule(row: TriggerRow) -> (r: TriggerDef)
    ensures
        is_trigger(r, row),
{
    TriggerDef {
        id: TriggerId::new(row.0),
        name: row.1.to_owned(),
        on: event(row.2),
        conditions: read_some(row.3.0, row.3.1.as_slice(), need),
        actions: read_some(row.4.0, row.4.1.as_slice(), act),
        once_per_player: row.5,
    }
}

/// What a row names is what it is read as, with the row's own numbers and names.
pub proof fn fires_on_as_the_row_names(on: GameTrigger, row: EventRow)
    requires
        fires_on(on, row),
    ensures
        row.0 == Event::Kill ==> (on matches GameTrigger::OnKill),
        row.0 == Event::Death ==> (on matches GameTrigger::OnDeath),
        row.0 == Event::ZoneEnter ==> (on matches GameTrigger::OnZoneEnter { zone_tag }
            && zone_tag@ == row.1@),
        row.0 == Event::Timer ==> (on matches GameTrigger::OnTimer { interval_s }
            && interval_s == decimal(row.2 as int, 3)),
        row.0 == Event::SpellCast ==> (on matches GameTrigger::OnSpellCast { spell }
            && spell@ == row.1@),
{
}

/// What a row names is what it is read as, with the row's own numbers and names.
pub proof fn needed_as_the_row_names(c: TriggerCondition, row: NeedRow)
    requires
        needed(c, row),
    ensures
        row.0 == Need::MinLevel ==> (c matches TriggerCondition::MinLevel { level }
            && level == row.2),
        row.0 == Need::HasTech ==> (c matches TriggerCondition::HasTech { node }
            && node@ == row.1@),
        row.0 == Need::Chance ==> (c matches TriggerCondition::Chance { p }
            && p == decimal(row.3 as int, 3)),
        row.0 == Need::InBiome ==> (c matches TriggerCondition::InBiome { name }
            && name@ == row.1@),
{
}

/// What a row names is what it is read as, with the row's own numbers and names.
pub proof fn acts_as_the_row_names(a: RuleAction, row: ActRow)
    requires
        acts(a, row),
    ensures
        row.0 == Act::GrantItem ==> (a matches RuleAction::GrantItem { item, count }
            && item@ == row.1@
            && count == row.2),
        row.0 == Act::ApplyStatus ==> (a matches RuleAction::ApplyStatus { status, duration_s }
            && status@ == row.1@
            && duration_s == decimal(row.3 as int, 3)),
        row.0 == Act::SpawnMob ==> (a matches RuleAction::SpawnMob { mob, count }
            && mob@ == row.1@
            && count == row.2),
        row.0 == Act::Broadcast ==> (a matches RuleAction::Broadcast { message }
            && message@ == row.1@),
{
}

/// In the rows of triggers, every column goes where it belongs.
pub proof fn triggers_are_read_by_column(row: TriggerRow, r: TriggerDef)
    requires
        call_ensures(rule, (row,), r),
    ensures
        r.id@ == row.0@,
        r.name@ == row.1@,
        fires_on(r.on, row.2),
        all_needed(r.conditions@, row.3.0, row.3.1@),
        all_acts(r.actions@, row.4.0, row.4.1@),
        r.once_per_player == row.5,
{
}

} // verus!
