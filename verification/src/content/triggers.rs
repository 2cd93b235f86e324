//! Triggers — a data-driven event/scripting system, so new game logic ships as data.
//!
//! This is the extensible "systems" layer. Instead of hardcoding "on level-up, grant a
//! skill point and announce it" or "killing in the hollows sometimes drops loot" in
//! the simulation, the designer writes [`TriggerDef`]s: *when* something happens
//! ([`GameTrigger`]), *if* some conditions hold ([`TriggerCondition`]), *do* a list of
//! actions ([`RuleAction`]). New behaviour therefore needs **no code deploy** — it is
//! authored as data and hot-reloaded into the live match like any other content.
//!
//! ## How the sim uses this
//!
//! the simulation's tick loop, when an event occurs, asks the registry for the triggers
//! whose `on` matches that event's kind (see
//! [`crate::content::registry::ContentRegistry::triggers_for`]), checks each trigger's
//! conditions against the actor/world, and applies the actions. Evaluation is
//! deterministic: a [`TriggerCondition::Chance`] consumes the same per-tick
//! deterministic seed the rest of the sim uses (NO wall-clock, NO ambient rng), so
//! every authority replaying the tick produces identical results.

use crate::content::ids::{ItemId, LootTableId, MobId, SpellId, StatusId, TechNodeId, TriggerId};
use crate::scalar::Scalar;
use vstd::prelude::*;

verus! {

/// The event that may fire a trigger. The sim raises one of these per game event and
/// matches it (by [`GameTriggerKind`]) against authored triggers.
#[derive(Debug, Clone, PartialEq)]
pub enum GameTrigger {
    /// An actor scored a kill.
    OnKill,
    /// An actor died.
    OnDeath,
    /// A player entered a tagged zone.
    OnZoneEnter { zone_tag: String },
    /// A player reached `level`.
    OnLevelUp { level: u32 },
    /// A player picked up `item`.
    OnPickup { item: ItemId },
    /// A periodic tick every `interval_s` seconds (ambient world logic).
    OnTimer { interval_s: Scalar },
    /// An objective was completed.
    OnObjectiveComplete,
    /// A specific spell was cast (combo/synergy hooks).
    OnSpellCast { spell: SpellId },
}

/// A coarse discriminant for [`GameTrigger`], independent of its payload. Used to
/// bucket triggers so the sim can fetch "all OnKill triggers" without matching on the
/// specific zone tag / spell / level inside the variant.
#[derive(Debug, Clone, Copy, PartialEq, Eq, Hash, Structural)]
pub enum GameTriggerKind {
    Kill,
    Death,
    ZoneEnter,
    LevelUp,
    Pickup,
    Timer,
    ObjectiveComplete,
    SpellCast,
}

/// A gate that must hold for a matched trigger to fire its actions. All conditions on
/// a trigger must pass (logical AND); compose richer logic with multiple triggers.
#[derive(Debug, Clone, PartialEq)]
pub enum TriggerCondition {
    /// Always passes.
    Always,
    /// The actor is at least `level`.
    MinLevel { level: u32 },
    /// The actor holds `item`.
    HasItem { item: ItemId },
    /// The actor has unlocked tech `node`.
    HasTech { node: TechNodeId },
    /// Passes with probability `p` (0..1), drawn from the deterministic per-tick seed.
    Chance { p: Scalar },
    /// The event occurred in biome `name`.
    InBiome { name: String },
}

/// An effect a trigger applies when it fires. The sim interprets each against the
/// triggering actor / location. This closed set is the "verbs" a designer can script;
/// new verbs are the rare case needing a code change.
#[derive(Debug, Clone, PartialEq)]
pub enum RuleAction {
    /// Grant XP to the actor.
    GrantXp { amount: u64 },
    /// Give the actor `count` of an item.
    GrantItem { item: ItemId, count: u16 },
    /// Apply a status to the actor for `duration_s` seconds.
    ApplyStatus { status: StatusId, duration_s: Scalar },
    /// Spawn `count` of a mob near the event location.
    SpawnMob { mob: MobId, count: u8 },
    /// Roll a loot table and scatter the drops at the event location.
    SpawnLoot { table: LootTableId },
    /// Broadcast a message to players (toast / kill feed / world event banner).
    Broadcast { message: String },
    /// Grant the actor `n` skill points to spend in the tech tree.
    GrantSkillPoints { n: u32 },
    /// Adjust the actor's / team's score (modes that use scoring).
    ModifyScore { points: i32 },
}

/// A complete event->action rule: the designer's unit of scripting.
#[derive(Debug, Clone)]
pub struct TriggerDef {
    pub id: TriggerId,
    pub name: String,
    /// The event that may fire this trigger.
    pub on: GameTrigger,
    /// All must pass for the actions to run.
    pub conditions: Vec<TriggerCondition>,
    /// What happens when it fires, in order.
    pub actions: Vec<RuleAction>,
    /// If true, fire at most once per player (the sim tracks per-player firing).
    pub once_per_player: bool,
}

impl GameTrigger {
    /// The payload-free discriminant of a trigger.
    pub open spec fn bucket(self) -> GameTriggerKind {
        match self {
            GameTrigger::OnKill => GameTriggerKind::Kill,
            GameTrigger::OnDeath => GameTriggerKind::Death,
            GameTrigger::OnZoneEnter { .. } => GameTriggerKind::ZoneEnter,
            GameTrigger::OnLevelUp { .. } => GameTriggerKind::LevelUp,
            GameTrigger::OnPickup { .. } => GameTriggerKind::Pickup,
            GameTrigger::OnTimer { .. } => GameTriggerKind::Timer,
            GameTrigger::OnObjectiveComplete => GameTriggerKind::ObjectiveComplete,
            GameTrigger::OnSpellCast { .. } => GameTriggerKind::SpellCast,
        }
    }

    /// The payload-free discriminant of this trigger, for bucketed lookup.
    pub fn kind(&self) -> (r: GameTriggerKind)
        ensures
            r == self.bucket(),
    {
        match self {
            GameTrigger::OnKill => GameTriggerKind::Kill,
            GameTrigger::OnDeath => GameTriggerKind::Death,
            GameTrigger::OnZoneEnter { .. } => GameTriggerKind::ZoneEnter,
            GameTrigger::OnLevelUp { .. } => GameTriggerKind::LevelUp,
            GameTrigger::OnPickup { .. } => GameTriggerKind::Pickup,
            GameTrigger::OnTimer { .. } => GameTriggerKind::Timer,
            GameTrigger::OnObjectiveComplete => GameTriggerKind::ObjectiveComplete,
            GameTrigger::OnSpellCast { .. } => GameTriggerKind::SpellCast,
        }
    }
}

/// The triggers that an event of this kind may fire, in authored order.
pub open spec fn bucketed(triggers: Seq<TriggerDef>, kind: GameTriggerKind) -> Seq<TriggerDef>
    decreases triggers.len(),
{
    if triggers.len() == 0 {
        seq![]
    } else {
        let rest = bucketed(triggers.drop_last(), kind);
        if triggers.last().on.bucket() == kind {
            rest.push(triggers.last())
        } else {
            rest
        }
    }
}

/// Collects the triggers that an event of this kind may fire.
pub fn triggers_of_kind(triggers: &Vec<TriggerDef>, kind: GameTriggerKind) -> (r: Vec<&TriggerDef>)
    ensures
        r@.len() == bucketed(triggers@, kind).len(),
        forall|i: int| 0 <= i < r@.len() ==> *(#[trigger] r@[i]) == bucketed(triggers@, kind)[i],
{
    let mut out: Vec<&TriggerDef> = Vec::new();
    let mut i: usize = 0;
    while i < triggers.len()
        invariant
            i <= triggers.len(),
            out@.len() == bucketed(triggers@.take(i as int), kind).len(),
            forall|k: int|
                0 <= k < out@.len() ==> *(#[trigger] out@[k]) == bucketed(
                    triggers@.take(i as int),
                    kind,
                )[k],
        decreases triggers.len() - i,
    {
        assert(triggers@.take(i + 1).drop_last() =~= triggers@.take(i as int));
        if triggers[i].on.kind() == kind {
            out.push(&triggers[i]);
        }
        i = i + 1;
    }
    assert(triggers@.take(triggers@.len() as int) =~= triggers@);
    out
}

/// An event may fire exactly the triggers that wait for its kind, in authored order.
pub proof fn events_fire_what_waits_for_them(triggers: Seq<TriggerDef>, kind: GameTriggerKind)
    ensures
        bucketed(triggers, kind) == triggers.filter(|t: TriggerDef| t.on.bucket() == kind),
    decreases triggers.len(),
{
    reveal(Seq::filter);
    if triggers.len() > 0 {
        events_fire_what_waits_for_them(triggers.drop_last(), kind);
    }
}

/// Triggers wait for the kind of their own event, whatever else it says.
pub proof fn triggers_wait_for_their_own_event(on: GameTrigger)
    ensures
        on is OnKill <==> on.bucket() is Kill,
        on is OnDeath <==> on.bucket() is Death,
        on is OnZoneEnter <==> on.bucket() is ZoneEnter,
        on is OnLevelUp <==> on.bucket() is LevelUp,
        on is OnPickup <==> on.bucket() is Pickup,
        on is OnTimer <==> on.bucket() is Timer,
        on is OnObjectiveComplete <==> on.bucket() is ObjectiveComplete,
        on is OnSpellCast <==> on.bucket() is SpellCast,
{
}

} // verus!
