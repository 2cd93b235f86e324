//! HUD state: the diegetic numbers a mage needs at a glance.
//!
//! This module owns the *data* of the heads-up display; drawing it is a screen-space pass.
//! [`HudState`] is refreshed each snapshot from the authoritative local player state and
//! fed the tick's [`GameEvent`]s so the kill feed and hitmarkers stay in sync with what
//! actually happened.

use crate::client::event::{EntityId, GameEvent};
use crate::client::input::ABILITY_SLOTS;
use crate::scalar::{dec, decimal, one, zero, Scalar, ONE};
use vstd::prelude::*;

verus! {

/// Max kill-feed lines kept on screen.
pub const KILL_FEED_MAX: usize = 6;

/// A single bar (health/mana/stamina): current and max, both already in display units. The
/// renderer scales the fill quad by the fraction.
#[derive(Debug, Clone, Copy, PartialEq, Eq, Structural)]
pub struct Bar {
    pub current: Scalar,
    pub max: Scalar,
}

impl Default for Bar {
    /// An empty bar.
    fn default() -> (r: Self)
        ensures
            r == (Bar { current: Scalar { bits: 0 }, max: Scalar { bits: 0 } }),
    {
        Bar { current: zero(), max: zero() }
    }
}

impl Bar {
    pub fn new(current: Scalar, max: Scalar) -> (r: Self)
        ensures
            r == (Bar { current, max }),
    {
        Bar { current, max }
    }

    /// Fill fraction in 0..1 (0 if `max` is non-positive); `over` divides.
    pub fn fraction<D: Fn(Scalar, Scalar) -> Scalar>(&self, over: &D) -> (r: Scalar)
        requires
            forall|x: Scalar, y: Scalar| call_requires(*over, (x, y)),
        ensures
            if self.max.at_most(Scalar { bits: 0 }) {
                r.bits == 0
            } else {
                exists|quotient: Scalar| #[trigger]
                    call_ensures(*over, (self.current, self.max), quotient) && r
                        == quotient.clamped(Scalar { bits: 0 }, Scalar { bits: ONE })
            },
    {
        if self.max.le(zero()) {
            zero()
        } else {
            over(self.current, self.max).clamp(zero(), one())
        }
    }
}

/// One ability slot's HUD state (the bound spell's readiness).
#[derive(Debug, PartialEq, Eq)]
pub struct AbilitySlot {
    /// Content spell id bound here (empty = unbound). Cosmetic label for the icon.
    pub spell_id: String,
    /// 0..1 cooldown remaining (0 = ready). Drives a radial sweep on the icon.
    pub cooldown_frac: Scalar,
    /// Whether this is the currently-selected slot (highlighted).
    pub selected: bool,
}

impl Clone for AbilitySlot {
    fn clone(&self) -> (r: Self)
        ensures
            r == *self,
    {
        AbilitySlot { spell_id: self.spell_id.clone(), cooldown_frac: self.cooldown_frac, selected: self.selected }
    }
}

impl Default for AbilitySlot {
    fn default() -> (r: Self)
        ensures
            r.spell_id@.len() == 0,
            r.cooldown_frac.bits == 0,
            !r.selected,
    {
        AbilitySlot { spell_id: String::new(), cooldown_frac: zero(), selected: false }
    }
}

/// A kill-feed line: "killer [weapon] victim", with a fade timer.
#[derive(Debug, PartialEq, Eq)]
pub struct KillFeedEntry {
    pub killer: String,
    pub victim: String,
    pub weapon: u8,
    /// Seconds of life remaining; the line fades as this approaches 0.
    pub ttl: Scalar,
}

impl Clone for KillFeedEntry {
    fn clone(&self) -> (r: Self)
        ensures
            r == *self,
    {
        KillFeedEntry { killer: self.killer.clone(), victim: self.victim.clone(), weapon: self.weapon, ttl: self.ttl }
    }
}

/// The part of the authoritative local player state that the HUD shows.
#[derive(Debug, Clone, Copy, PartialEq, Eq, Structural)]
pub struct LocalPlayer {
    pub health: i32,
    pub armor: i32,
    pub ammo_in_mag: u16,
    pub ammo_reserve: u16,
    pub alive: bool,
    /// The tick of the next respawn; 0 if none is due.
    pub respawn_at_tick: u32,
}

/// The complete HUD snapshot for a frame.
#[derive(Debug, PartialEq, Eq)]
pub struct HudState {
    pub health: Bar,
    pub armor: Bar,
    /// Mana — placeholder until the protocol carries it.
    pub mana: Bar,
    /// Stamina — placeholder (sprint/dodge budget).
    pub stamina: Bar,
    /// Focus charges: in-hand / reserve.
    pub charges: (u16, u16),
    pub level: u32,
    /// XP progress toward the next level, 0..1.
    pub xp_frac: Scalar,
    pub abilities: Vec<AbilitySlot>,
    /// Selected ability slot index.
    pub selected_slot: u8,
    pub kill_feed: Vec<KillFeedEntry>,
    /// Hitmarker flash timer (>0 = show); set when the local player lands a hit.
    pub hitmarker: Scalar,
    /// True while dead/awaiting respawn (drives the respawn overlay + timer).
    pub dead: bool,
    /// Smoothed round-trip time for the netgraph readout.
    pub rtt_ms: Scalar,
}

impl Clone for HudState {
    fn clone(&self) -> (r: Self)
        ensures
            r == (HudState { abilities: r.abilities, kill_feed: r.kill_feed, ..*self }),
            r.abilities@ == self.abilities@,
            r.kill_feed@ == self.kill_feed@,
    {
        let r = HudState {
            health: self.health,
            armor: self.armor,
            mana: self.mana,
            stamina: self.stamina,
            charges: self.charges,
            level: self.level,
            xp_frac: self.xp_frac,
            abilities: self.abilities.clone(),
            selected_slot: self.selected_slot,
            kill_feed: self.kill_feed.clone(),
            hitmarker: self.hitmarker,
            dead: self.dead,
            rtt_ms: self.rtt_ms,
        };
        assert(r.abilities@ =~= self.abilities@);
        assert(r.kill_feed@ =~= self.kill_feed@);
        r
    }
}

impl Default for HudState {
    fn default() -> (r: Self)
        ensures
            r.fresh(),
    {
        let mut abilities: Vec<AbilitySlot> = Vec::new();
        let mut i: u8 = 0;
        while i < ABILITY_SLOTS
            invariant
                i <= ABILITY_SLOTS,
                abilities@.len() == i,
                forall|k: int|
                    0 <= k < i ==> (#[trigger] abilities@[k]).spell_id@.len() == 0
                        && abilities@[k].cooldown_frac.bits == 0 && !abilities@[k].selected,
            decreases ABILITY_SLOTS - i,
        {
            abilities.push(AbilitySlot::default());
            i = i + 1;
        }
        let full = Bar::new(dec(100, 0), dec(100, 0));
        HudState {
            health: full,
            armor: Bar::new(zero(), dec(100, 0)),
            mana: full,
            stamina: full,
            charges: (0, 0),
            level: 1,
            xp_frac: zero(),
            abilities,
            selected_slot: 0,
            kill_feed: Vec::new(),
            hitmarker: zero(),
            dead: false,
            rtt_ms: zero(),
        }
    }
}

/// The last lines of the feed, up to the cap.
pub open spec fn trimmed(feed: Seq<KillFeedEntry>) -> Seq<KillFeedEntry> {
    if feed.len() > KILL_FEED_MAX {
        feed.skip(feed.len() - KILL_FEED_MAX)
    } else {
        feed
    }
}

/// The line that a death adds to the feed, at its full 6 seconds.
pub open spec fn is_line(line: KillFeedEntry, event: GameEvent) -> bool {
    match event {
        GameEvent::Death { weapon, victim_node, killer_node, .. } => {
            &&& line.killer == killer_node
            &&& line.victim == victim_node
            &&& line.weapon == weapon
            &&& line.ttl == decimal(6, 0)
        },
        _ => false,
    }
}

/// The feed `after` an event, from the feed `before` it.
pub open spec fn feed_step(before: Seq<KillFeedEntry>, event: GameEvent, after: Seq<KillFeedEntry>) -> bool {
    if event is Death {
        exists|line: KillFeedEntry| #[trigger]
            is_line(line, event) && after == trimmed(before.push(line))
    } else {
        after == before
    }
}

/// The lines whose time has not run out, in order.
pub open spec fn live(feed: Seq<KillFeedEntry>) -> Seq<KillFeedEntry>
    decreases feed.len(),
{
    if feed.len() == 0 {
        seq![]
    } else {
        let rest = live(feed.drop_last());
        if (Scalar { bits: 0 }).below(feed.last().ttl) {
            rest.push(feed.last())
        } else {
            rest
        }
    }
}

/// The feed `aged` by `dt`: each line with its time less `dt`, by `minus`.
pub open spec fn aged<M: Fn(Scalar, Scalar) -> Scalar>(
    feed: Seq<KillFeedEntry>,
    dt: Scalar,
    minus: M,
    after: Seq<KillFeedEntry>,
) -> bool {
    &&& after.len() == feed.len()
    &&& forall|i: int|
        0 <= i < feed.len() ==> {
            &&& (#[trigger] after[i]).killer == feed[i].killer
            &&& after[i].victim == feed[i].victim
            &&& after[i].weapon == feed[i].weapon
            &&& call_ensures(minus, (feed[i].ttl, dt), after[i].ttl)
        }
}

impl HudState {
    /// Full pools, empty slots, an empty feed.
    pub open spec fn fresh(self) -> bool {
        let full = Bar { current: decimal(100, 0), max: decimal(100, 0) };
        &&& self.health == full
        &&& self.armor == (Bar { current: Scalar { bits: 0 }, max: decimal(100, 0) })
        &&& self.mana == full
        &&& self.stamina == full
        &&& self.charges == (0u16, 0u16)
        &&& self.level == 1
        &&& self.xp_frac.bits == 0
        &&& self.abilities@.len() == ABILITY_SLOTS
        &&& forall|k: int|
            0 <= k < self.abilities@.len() ==> (#[trigger] self.abilities@[k]).spell_id@.len() == 0
                && self.abilities@[k].cooldown_frac.bits == 0 && !self.abilities@[k].selected
        &&& self.selected_slot == 0
        &&& self.kill_feed@.len() == 0
        &&& self.hitmarker.bits == 0
        &&& !self.dead
        &&& self.rtt_ms.bits == 0
    }

    pub fn new() -> (r: Self)
        ensures
            r.fresh(),
    {
        HudState::default()
    }

    /// Refresh the player-state-derived fields from an authoritative snapshot. Bars that
    /// the protocol does not yet carry are left untouched.
    pub fn apply_local(&mut self, local: &LocalPlayer)
        ensures
            *final(self) == (HudState {
                health: Bar {
                    current: decimal(
                        if local.health > 0 {
                            local.health as int
                        } else {
                            0
                        },
                        0,
                    ),
                    max: decimal(100, 0),
                },
                armor: Bar {
                    current: decimal(
                        if local.armor > 0 {
                            local.armor as int
                        } else {
                            0
                        },
                        0,
                    ),
                    max: decimal(100, 0),
                },
                charges: (local.ammo_in_mag, local.ammo_reserve),
                dead: !local.alive || local.respawn_at_tick != 0,
                ..*old(self)
            }),
    {
        let health: i32 = if local.health > 0 {
            local.health
        } else {
            0
        };
        let armor: i32 = if local.armor > 0 {
            local.armor
        } else {
            0
        };
        self.health = Bar::new(dec(health, 0), dec(100, 0));
        self.armor = Bar::new(dec(armor, 0), dec(100, 0));
        self.charges = (local.ammo_in_mag, local.ammo_reserve);
        self.dead = !local.alive || local.respawn_at_tick != 0;
    }

    /// Update the selected slot highlight: the slot itself and no other.
    pub fn set_selected_slot(&mut self, slot: u8)
        ensures
            *final(self) == (HudState {
                selected_slot: slot,
                abilities: final(self).abilities,
                ..*old(self)
            }),
            final(self).abilities@.len() == old(self).abilities@.len(),
            forall|i: int|
                0 <= i < final(self).abilities@.len() ==> #[trigger] final(self).abilities@[i] == (
                AbilitySlot { selected: i == slot, ..old(self).abilities@[i] }),
    {
        let ghost was = *self;
        self.selected_slot = slot;
        let mut i: usize = 0;
        while i < self.abilities.len()
            invariant
                i <= self.abilities.len(),
                *self == (HudState { selected_slot: slot, abilities: self.abilities, ..was }),
                self.abilities@.len() == was.abilities@.len(),
                forall|k: int|
                    0 <= k < i ==> #[trigger] self.abilities@[k] == (AbilitySlot {
                        selected: k == slot,
                        ..was.abilities@[k]
                    }),
                forall|k: int| i <= k < was.abilities@.len() ==> #[trigger] self.abilities@[k]
                    == was.abilities@[k],
            decreases self.abilities.len() - i,
        {
            let on: bool = i == slot as usize;
            self.abilities[i].selected = on;
            i = i + 1;
        }
    }

    /// Set the netgraph RTT readout.
    pub fn set_rtt(&mut self, rtt_ms: Scalar)
        ensures
            *final(self) == (HudState { rtt_ms, ..*old(self) }),
    {
        self.rtt_ms = rtt_ms;
    }

    /// Whether a run of feeds, one per event and one to begin with, goes from `before` to
    /// `after`.
    pub open spec fn feed_run(
        before: Seq<KillFeedEntry>,
        events: Seq<GameEvent>,
        run: Seq<Seq<KillFeedEntry>>,
        after: Seq<KillFeedEntry>,
    ) -> bool {
        &&& run.len() == events.len() + 1
        &&& run[0] == before
        &&& run.last() == after
        &&& forall|i: int| 0 <= i < events.len() ==> feed_step(run[i], #[trigger] events[i], run[i + 1])
    }

    /// Whether some event is a hit that `me` landed.
    pub open spec fn landed(events: Seq<GameEvent>, me: EntityId) -> bool {
        exists|i: int| 0 <= i < events.len() && own_hit(#[trigger] events[i], me)
    }

    /// Fold a tick's events into the HUD, in order: each death adds a line to the kill feed,
    /// which keeps the latest few. `me` is this client's own body, used to flash the
    /// hitmarker, for 0.15 seconds, only on our own hits.
    pub fn ingest_events(&mut self, events: &[GameEvent], me: EntityId)
        ensures
            *final(self) == (HudState {
                kill_feed: final(self).kill_feed,
                hitmarker: if HudState::landed(events@, me) {
                    decimal(15, 2)
                } else {
                    old(self).hitmarker
                },
                ..*old(self)
            }),
            exists|run: Seq<Seq<KillFeedEntry>>| #[trigger]
                HudState::feed_run(
                    old(self).kill_feed@,
                    events@,
                    run,
                    final(self).kill_feed@,
                ),
    {
        let ghost was = *self;
        let ghost mut run: Seq<Seq<KillFeedEntry>> = seq![self.kill_feed@];
        let mut i: usize = 0;
        while i < events.len()
            invariant
                i <= events.len(),
                *self == (HudState { kill_feed: self.kill_feed, hitmarker: self.hitmarker, ..was }),
                self.hitmarker == if HudState::landed(events@.take(i as int), me) {
                    decimal(15, 2)
                } else {
                    was.hitmarker
                },
                run.len() == i + 1,
                run[0] == was.kill_feed@,
                run.last() == self.kill_feed@,
                forall|k: int| 0 <= k < i ==> feed_step(run[k], #[trigger] events@[k], run[k + 1]),
            decreases events.len() - i,
        {
            let ghost before = self.kill_feed@;
            match &events[i] {
                GameEvent::Death { weapon, victim_node, killer_node, .. } => {
                    let line = KillFeedEntry {
                        killer: killer_node.clone(),
                        victim: victim_node.clone(),
                        weapon: *weapon,
                        ttl: dec(6, 0),
                    };
                    let ghost added = line;
                    self.kill_feed.push(line);
                    trim(&mut self.kill_feed);
                    assert(is_line(added, events@[i as int]));
                },
                GameEvent::Hit { attacker, .. } => {
                    if *attacker == me {
                        self.hitmarker = dec(15, 2);
                    }
                },
                _ => {},
            }
            proof {
                landed_so_far(events@, i as int, me);
                let longer = run.push(self.kill_feed@);
                assert forall|k: int| 0 <= k < i + 1 implies feed_step(
                    longer[k],
                    #[trigger] events@[k],
                    longer[k + 1],
                ) by {
                    if k == i {
                        assert(longer[k] == before);
                    }
                }
                run = longer;
            }
            i = i + 1;
        }
        assert(events@.take(events@.len() as int) =~= events@);
        assert(HudState::feed_run(was.kill_feed@, events@, run, self.kill_feed@));
    }

    /// Age out time-based HUD elements (kill feed fade, hitmarker flash). Call once per
    /// rendered frame with the frame delta in seconds; `minus` subtracts.
    pub fn tick<M: Fn(Scalar, Scalar) -> Scalar>(&mut self, dt: Scalar, minus: &M)
        requires
            forall|x: Scalar, y: Scalar| call_requires(*minus, (x, y)),
        ensures
            *final(self) == (HudState {
                kill_feed: final(self).kill_feed,
                hitmarker: final(self).hitmarker,
                ..*old(self)
            }),
            exists|left: Scalar| #[trigger]
                call_ensures(*minus, (old(self).hitmarker, dt), left) && final(self).hitmarker
                    == left.floored(Scalar { bits: 0 }),
            exists|older: Seq<KillFeedEntry>| #[trigger]
                aged(old(self).kill_feed@, dt, *minus, older) && final(self).kill_feed@ == live(older),
    {
        let ghost was = *self;
        let left = minus(self.hitmarker, dt);
        self.hitmarker = left.max(zero());
        let ghost mut older: Seq<KillFeedEntry> = seq![];
        let mut kept: Vec<KillFeedEntry> = Vec::new();
        let mut i: usize = 0;
        while i < self.kill_feed.len()
            invariant
                i <= self.kill_feed.len(),
                self.kill_feed == was.kill_feed,
                forall|x: Scalar, y: Scalar| call_requires(*minus, (x, y)),
                aged(was.kill_feed@.take(i as int), dt, *minus, older),
                kept@ == live(older),
            decreases self.kill_feed.len() - i,
        {
            let line = &self.kill_feed[i];
            let ttl = minus(line.ttl, dt);
            let next = KillFeedEntry {
                killer: line.killer.clone(),
                victim: line.victim.clone(),
                weapon: line.weapon,
                ttl,
            };
            proof {
                let longer = older.push(next);
                assert(longer.drop_last() =~= older);
                older = longer;
            }
            if zero().lt(ttl) {
                kept.push(next);
            }
            i = i + 1;
        }
        assert(was.kill_feed@.take(was.kill_feed@.len() as int) =~= was.kill_feed@);
        self.kill_feed = kept;
        assert(call_ensures(*minus, (was.hitmarker, dt), left));
    }
}

/// Whether the event is a hit that `me` landed.
pub open spec fn own_hit(event: GameEvent, me: EntityId) -> bool {
    event matches GameEvent::Hit { attacker, .. } && attacker == me
}

proof fn landed_so_far(events: Seq<GameEvent>, i: int, me: EntityId)
    requires
        0 <= i < events.len(),
    ensures
        HudState::landed(events.take(i + 1), me) == (HudState::landed(events.take(i), me) || own_hit(
            events[i],
            me,
        )),
{
    let now = events.take(i + 1);
    let before = events.take(i);
    if HudState::landed(before, me) {
        let k = choose|k: int| 0 <= k < before.len() && own_hit(#[trigger] before[k], me);
        assert(own_hit(now[k], me));
    }
    if own_hit(events[i], me) {
        assert(own_hit(now[i], me));
    }
    if HudState::landed(now, me) {
        let k = choose|k: int| 0 <= k < now.len() && own_hit(#[trigger] now[k], me);
        if k < i {
            assert(own_hit(before[k], me));
        }
    }
}

/// Others' hits never flash the hitmarker, whatever else happens in the tick.
pub proof fn others_hits_do_not_mark(events: Seq<GameEvent>, me: EntityId)
    requires
        forall|i: int|
            0 <= i < events.len() ==> (#[trigger] events[i] matches GameEvent::Hit { attacker, .. }
                ==> attacker != me),
    ensures
        !HudState::landed(events, me),
{
}

fn trim(feed: &mut Vec<KillFeedEntry>)
    ensures
        final(feed)@ == trimmed(old(feed)@),
{
    let ghost all = feed@;
    assert(all.skip(0) =~= all);
    while feed.len() > KILL_FEED_MAX
        invariant
            feed@.len() <= all.len(),
            feed@ == all.skip(all.len() - feed@.len()),
            all.len() > KILL_FEED_MAX ==> feed@.len() >= KILL_FEED_MAX,
            all.len() <= KILL_FEED_MAX ==> feed@ == all,
        decreases feed.len(),
    {
        let ghost before = feed@;
        let _ = feed.remove(0);
        assert(feed@ =~= all.skip(all.len() - feed@.len()));
    }
}

/// The kill feed never outgrows the screen: whatever the events, a feed that fits still
/// fits.
pub proof fn feed_stays_on_screen(before: Seq<KillFeedEntry>, event: GameEvent, after: Seq<KillFeedEntry>)
    requires
        feed_step(before, event, after),
        before.len() <= KILL_FEED_MAX,
    ensures
        after.len() <= KILL_FEED_MAX,
{
}

/// A death is announced: the newest line of the feed names its killer, its victim and its weapon at
/// full time, and above it stand the latest of the lines that were there, as many as there is room
/// for.
pub proof fn a_death_is_announced(before: Seq<KillFeedEntry>, event: GameEvent, after: Seq<KillFeedEntry>)
    requires
        feed_step(before, event, after),
    ensures
        event matches GameEvent::Death { weapon, victim_node, killer_node, .. } ==> {
            &&& after.len() > 0
            &&& after.last().killer == killer_node
            &&& after.last().victim == victim_node
            &&& after.last().weapon == weapon
            &&& after.last().ttl == decimal(6, 0)
            &&& after.len() == if before.len() < KILL_FEED_MAX {
                before.len() + 1
            } else {
                KILL_FEED_MAX as nat
            }
            &&& forall|i: int|
                0 <= i < after.len() - 1 ==> #[trigger] after[i] == before[before.len() - (after.len()
                    - 1) + i]
        },
        !(event is Death) ==> after == before,
{
    if event is Death {
        let line = choose|line: KillFeedEntry| #[trigger]
            is_line(line, event) && after == trimmed(before.push(line));
        let full = before.push(line);
        assert(after.last() == line);
    }
}

/// A line stays until its time is up, and goes then: what is left is exactly the lines with time
/// left, in their order.
pub proof fn lines_stay_while_they_live(feed: Seq<KillFeedEntry>)
    ensures
        live(feed) == feed.filter(|line: KillFeedEntry| (Scalar { bits: 0 }).below(line.ttl)),
    decreases feed.len(),
{
    let lives = |line: KillFeedEntry| (Scalar { bits: 0 }).below(line.ttl);
    reveal(Seq::filter);
    if feed.len() > 0 {
        lines_stay_while_they_live(feed.drop_last());
    }
}

/// Ageing takes time off a line and changes nothing else of it.
pub proof fn ageing_takes_time_off<M: Fn(Scalar, Scalar) -> Scalar>(
    feed: Seq<KillFeedEntry>,
    dt: Scalar,
    minus: M,
    after: Seq<KillFeedEntry>,
    i: int,
)
    requires
        aged(feed, dt, minus, after),
        0 <= i < feed.len(),
    ensures
        after.len() == feed.len(),
        after[i] == (KillFeedEntry { ttl: after[i].ttl, ..feed[i] }),
        call_ensures(minus, (feed[i].ttl, dt), after[i].ttl),
{
    assert(after[i].killer == feed[i].killer);
}

/// Our own hits mark: a tick that holds one flashes the hitmarker, whatever else it holds.
pub proof fn own_hits_mark(events: Seq<GameEvent>, me: EntityId, i: int)
    requires
        0 <= i < events.len(),
        events[i] matches GameEvent::Hit { attacker, .. } && attacker == me,
    ensures
        HudState::landed(events, me),
{
    assert(own_hit(events[i], me));
}

/// A new display shows a healthy novice: full pools, no armour, nothing bound, nobody killed.
pub proof fn a_new_display_is_clean(h: HudState)
    requires
        h.fresh(),
    ensures
        h.health.current == h.health.max && h.health.max == decimal(100, 0),
        h.mana.current == h.mana.max && h.mana.max == decimal(100, 0),
        h.stamina.current == h.stamina.max && h.stamina.max == decimal(100, 0),
        h.armor.current.bits == 0 && h.armor.max == decimal(100, 0),
        h.charges.0 == 0 && h.charges.1 == 0,
        h.level == 1 && h.xp_frac.bits == 0,
        h.abilities@.len() == ABILITY_SLOTS,
        forall|k: int| 0 <= k < ABILITY_SLOTS ==> !(#[trigger] h.abilities@[k]).selected,
        h.kill_feed@.len() == 0,
        h.hitmarker.bits == 0 && !h.dead,
{
}

/// The display shows what the authority says of the local player: health and armour of a hundred, never
/// below zero, the charges, and whether the player is dead; nothing else on it changes.
pub proof fn the_display_shows_the_player(hud: &mut HudState, local: &LocalPlayer)
    requires
        call_ensures(HudState::apply_local, (hud, local), ()),
    ensures
        local.health >= 0 ==> final(hud).health.current == decimal(local.health as int, 0),
        local.health < 0 ==> final(hud).health.current == decimal(0, 0),
        local.armor >= 0 ==> final(hud).armor.current == decimal(local.armor as int, 0),
        local.armor < 0 ==> final(hud).armor.current == decimal(0, 0),
        final(hud).health.max == decimal(100, 0) && final(hud).armor.max == decimal(100, 0),
        final(hud).charges.0 == local.ammo_in_mag && final(hud).charges.1 == local.ammo_reserve,
        !final(hud).dead <==> local.alive && local.respawn_at_tick == 0,
        final(hud).mana == old(hud).mana && final(hud).stamina == old(hud).stamina,
        final(hud).level == old(hud).level && final(hud).kill_feed == old(hud).kill_feed,
        final(hud).selected_slot == old(hud).selected_slot,
{
}

/// Of the slots just the selected one is lit, and what is bound to them stays.
pub proof fn one_slot_is_lit(hud: &mut HudState, slot: u8, i: int)
    requires
        call_ensures(HudState::set_selected_slot, (hud, slot), ()),
        0 <= i < old(hud).abilities@.len(),
    ensures
        final(hud).selected_slot == slot,
        final(hud).abilities@.len() == old(hud).abilities@.len(),
        final(hud).abilities@[i].selected <==> i == slot,
        final(hud).abilities@[i].spell_id == old(hud).abilities@[i].spell_id,
        final(hud).abilities@[i].cooldown_frac == old(hud).abilities@[i].cooldown_frac,
{
}

/// A bar's filling is the quotient of what there is by what there can be, held between zero and one, and
/// empty where there can be nothing.
pub proof fn bars_fill_by_their_share<D: Fn(Scalar, Scalar) -> Scalar>(bar: &Bar, over: &D, r: Scalar)
    requires
        call_ensures(Bar::fraction::<D>, (bar, over), r),
    ensures
        bar.max.at_most(Scalar { bits: 0 }) ==> r.bits == 0,
        !bar.max.at_most(Scalar { bits: 0 }) ==> exists|q: Scalar|
            {
                &&& #[trigger] call_ensures(*over, (bar.current, bar.max), q)
                &&& (Scalar { bits: 0 }).at_most(q) && q.at_most(Scalar { bits: 0x3f80_0000 }) ==> r
                    == q
                &&& q.below(Scalar { bits: 0 }) ==> r.bits == 0
                &&& (Scalar { bits: 0x3f80_0000 }).below(q) ==> r.bits == 0x3f80_0000
            },
{
}

/// A tick with a single event shows it: our own hit flashes the marker, a death adds its line below the
/// latest five, and anything else leaves both as they were.
pub proof fn each_event_is_shown(hud: &mut HudState, events: &[GameEvent], me: EntityId)
    requires
        call_ensures(HudState::ingest_events, (hud, events, me), ()),
        events@.len() == 1,
        old(hud).kill_feed@.len() <= 6,
    ensures
        events@[0] matches GameEvent::Hit { attacker, .. } ==> final(hud).hitmarker == if attacker == me {
            decimal(15, 2)
        } else {
            old(hud).hitmarker
        },
        !(events@[0] is Hit) ==> final(hud).hitmarker == old(hud).hitmarker,
        events@[0] matches GameEvent::Death { weapon, victim_node, killer_node, .. } ==> {
            let feed = final(hud).kill_feed@;
            &&& feed.len() == if old(hud).kill_feed@.len() < 6 {
                old(hud).kill_feed@.len() + 1
            } else {
                6
            }
            &&& feed.last().killer == killer_node
            &&& feed.last().victim == victim_node
            &&& feed.last().weapon == weapon
            &&& feed.last().ttl == decimal(6, 0)
            &&& forall|i: int|
                0 <= i < feed.len() - 1 ==> #[trigger] feed[i] == old(hud).kill_feed@[old(hud).kill_feed@.len() - (feed.len() - 1) + i]
        },
        !(events@[0] is Death) ==> final(hud).kill_feed@ == old(hud).kill_feed@,
        final(hud).health == old(hud).health && final(hud).dead == old(hud).dead,
{
    let run = choose|run: Seq<Seq<KillFeedEntry>>| #[trigger]
        HudState::feed_run(old(hud).kill_feed@, events@, run, final(hud).kill_feed@);
    assert(feed_step(run[0], events@[0], run[1]));
    a_death_is_announced(run[0], events@[0], run[1]);
    if own_hit(events@[0], me) {
        own_hits_mark(events@, me, 0);
    } else {
        assert(!HudState::landed(events@, me));
    }
}

/// As time passes the marker and the lines run down, and a line goes once its time is up: what is left
/// are the lines that still have time, in order.
pub proof fn the_feed_fades<M: Fn(Scalar, Scalar) -> Scalar>(
    hud: &mut HudState,
    dt: Scalar,
    minus: &M,
    i: int,
)
    requires
        call_ensures(HudState::tick::<M>, (hud, dt, minus), ()),
        0 <= i < old(hud).kill_feed@.len(),
        forall|x: Scalar, y: Scalar, a: Scalar, b: Scalar| #[trigger]
            call_ensures(*minus, (x, y), a) && #[trigger] call_ensures(*minus, (x, y), b) ==> a == b,
    ensures
        forall|ttl: Scalar| #[trigger]
            call_ensures(*minus, (old(hud).kill_feed@[i].ttl, dt), ttl) ==> {
                (Scalar { bits: 0 }).below(ttl) ==> final(hud).kill_feed@.contains(
                    (KillFeedEntry { ttl, ..old(hud).kill_feed@[i] }),
                )
            },
        forall|k: int|
            0 <= k < final(hud).kill_feed@.len() ==> (Scalar { bits: 0 }).below(
                (#[trigger] final(hud).kill_feed@[k]).ttl,
            ),
        final(hud).kill_feed@.len() <= old(hud).kill_feed@.len(),
        exists|left: Scalar| #[trigger]
            call_ensures(*minus, (old(hud).hitmarker, dt), left) && ((Scalar { bits: 0 }).at_most(left)
                ==> final(hud).hitmarker == left) && (left.below(Scalar { bits: 0 })
                ==> final(hud).hitmarker.bits == 0),
{
    let feed = old(hud).kill_feed@;
    let older = choose|older: Seq<KillFeedEntry>| #[trigger]
        aged(feed, dt, *minus, older) && final(hud).kill_feed@ == live(older);
    let lives = |line: KillFeedEntry| (Scalar { bits: 0 }).below(line.ttl);
    lines_stay_while_they_live(older);
    older.filter_lemma(lives);
    assert forall|k: int| 0 <= k < final(hud).kill_feed@.len() implies (Scalar { bits: 0 }).below(
        (#[trigger] final(hud).kill_feed@[k]).ttl,
    ) by {
        assert(lives(older.filter(lives)[k]));
    }
    ageing_takes_time_off(feed, dt, *minus, older, i);
    assert(older[i] == (KillFeedEntry { ttl: older[i].ttl, ..feed[i] }));
    if (Scalar { bits: 0 }).below(older[i].ttl) {
        assert(lives(older[i]));
        assert(older.filter(lives).contains(older[i]));
    }
}

} // verus!
