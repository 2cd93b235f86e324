//! The client's session with its authority, and the clockwork of a frame.
//!
//! Rendering happens every animation frame; simulation input is produced on a fixed-tick
//! accumulator so that prediction matches the server's fixed step exactly. This module
//! decides, from the time and the messages that came in, what a frame has to do; the caller
//! does it.

use crate::client::event::EntityId;
use crate::client::host::ZoneId;
use crate::scalar::{zero, Scalar};
use vstd::prelude::*;

verus! {

/// Send a liveness/clock ping this often, in milliseconds.
pub const PING_INTERVAL_MS: u64 = 1000;

/// Never advance more than this many fixed ticks in one frame, so a long stall (tab
/// backgrounded, pause) cannot trigger a death-spiral of catch-up simulation.
pub const MAX_CATCHUP_TICKS: u32 = 8;

/// A message from the authority; `S` is a world snapshot.
pub enum ServerMessage<S> {
    JoinAccept { entity: EntityId },
    JoinReject,
    Snapshot(S),
    Redirect { entity: EntityId },
    Pong { client_time_ms: u64 },
    Karma,
    Kick,
}

/// What a message asks of the client.
pub enum Response<S> {
    /// Rebuild the predicted world around this entity.
    Rehome(EntityId),
    /// Feed the snapshot to prediction, the HUD and the effects.
    Apply(S),
    /// A round trip that began at this time has ended.
    RoundTrip(u64),
    Nothing,
}

/// Where the session stands.
#[derive(Debug, Clone, Copy, PartialEq, Eq, Structural)]
pub struct Session {
    /// Our entity id, 0 until one is assigned.
    pub local_id: EntityId,
    pub joined: bool,
    pub last_ms: u64,
    /// Time that has passed but was not simulated yet, seconds.
    pub accumulator: Scalar,
    pub tick_counter: u32,
    pub last_ping_ms: u64,
    /// Free-running hosted-frame counter.
    pub frame_count: u32,
}

/// What a hosted frame does besides the simulation.
#[derive(Debug, Clone, Copy, PartialEq, Eq, Structural)]
pub struct Chores {
    /// Make sure that the player has a body.
    pub ensure_joined: bool,
    /// Reflect the state into the page.
    pub publish_hud: bool,
    /// Log a line.
    pub log: bool,
}

/// Taking `n` ticks off `from` leaves `to`, and each time there was at least a tick to take.
pub open spec fn drained<M: Fn(Scalar, Scalar) -> Scalar>(
    minus: M,
    tick: Scalar,
    from: Scalar,
    n: nat,
    to: Scalar,
) -> bool
    decreases n,
{
    if n == 0 {
        from == to
    } else {
        exists|mid: Scalar|
            drained(minus, tick, from, (n - 1) as nat, mid) && tick.at_most(mid) && #[trigger] call_ensures(
                minus,
                (mid, tick),
                to,
            )
    }
}

impl Session {
    /// A session that has not joined, at `now`.
    pub fn new(now: u64) -> (r: Session)
        ensures
            r == (Session {
                local_id: 0,
                joined: false,
                last_ms: now,
                accumulator: Scalar { bits: 0 },
                tick_counter: 0,
                last_ping_ms: 0,
                frame_count: 0,
            }),
    {
        Session {
            local_id: 0,
            joined: false,
            last_ms: now,
            accumulator: zero(),
            tick_counter: 0,
            last_ping_ms: 0,
            frame_count: 0,
        }
    }

    /// Milliseconds since the last frame; none if the clock went back.
    pub fn elapsed(&mut self, now: u64) -> (r: u64)
        ensures
            *final(self) == (Session { last_ms: now, ..*old(self) }),
            r == if now >= old(self).last_ms {
                now - old(self).last_ms
            } else {
                0
            },
    {
        let passed: u64 = now.saturating_sub(self.last_ms);
        self.last_ms = now;
        passed
    }

    /// How many fixed ticks to simulate once `dt` more has passed. Each is taken off the
    /// accumulated time, of which there has to be a tick's worth; at most
    /// [`MAX_CATCHUP_TICKS`], and then the backlog is dropped rather than chased. `plus` and
    /// `minus` are the arithmetic of time.
    pub fn ticks_due<P: Fn(Scalar, Scalar) -> Scalar, M: Fn(Scalar, Scalar) -> Scalar>(
        &mut self,
        dt: Scalar,
        tick: Scalar,
        plus: &P,
        minus: &M,
    ) -> (r: u32)
        requires
            forall|a: Scalar, b: Scalar| call_requires(*plus, (a, b)),
            forall|a: Scalar, b: Scalar| call_requires(*minus, (a, b)),
        ensures
            r <= MAX_CATCHUP_TICKS,
            *final(self) == (Session { accumulator: final(self).accumulator, ..*old(self) }),
            exists|sum: Scalar, rest: Scalar|
                #![trigger drained(*minus, tick, sum, r as nat, rest)]
                call_ensures(*plus, (old(self).accumulator, dt), sum) && drained(
                    *minus,
                    tick,
                    sum,
                    r as nat,
                    rest,
                ) && if r == MAX_CATCHUP_TICKS {
                    final(self).accumulator == (Scalar { bits: 0 })
                } else {
                    !tick.at_most(rest) && final(self).accumulator == rest
                },
    {
        let sum = plus(self.accumulator, dt);
        let mut rest = sum;
        let mut steps: u32 = 0;
        assert(drained(*minus, tick, sum, 0, rest));
        while steps < MAX_CATCHUP_TICKS && tick.le(rest)
            invariant
                steps <= MAX_CATCHUP_TICKS,
                forall|a: Scalar, b: Scalar| call_requires(*minus, (a, b)),
                drained(*minus, tick, sum, steps as nat, rest),
            decreases MAX_CATCHUP_TICKS - steps,
        {
            let ghost mid = rest;
            rest = minus(rest, tick);
            steps = steps + 1;
            assert(call_ensures(*minus, (mid, tick), rest));
        }
        self.accumulator = if steps == MAX_CATCHUP_TICKS {
            zero()
        } else {
            rest
        };
        assert(drained(*minus, tick, sum, steps as nat, rest));
        steps
    }

    /// Counts one fixed tick. Returns the server tick to stamp on its input (`estimated`,
    /// or 0 before joining) and whether to send a batch of inputs: once joined, every
    /// `every` ticks.
    pub fn begin_tick(&mut self, estimated: u32, every: u32) -> (r: (u32, bool))
        requires
            every != 0,
        ensures
            *final(self) == (Session {
                tick_counter: old(self).tick_counter.wrapping_add(1),
                ..*old(self)
            }),
            r.0 == if old(self).joined {
                estimated
            } else {
                0
            },
            r.1 == (old(self).joined && final(self).tick_counter % every == 0),
    {
        self.tick_counter = self.tick_counter.wrapping_add(1);
        if self.joined {
            (estimated, self.tick_counter % every == 0)
        } else {
            (0, false)
        }
    }

    /// Whether to ping now: once joined, whenever [`PING_INTERVAL_MS`] have passed since the
    /// last ping.
    pub fn ping_due(&mut self, now: u64) -> (r: bool)
        ensures
            r == (old(self).joined && now - old(self).last_ping_ms >= PING_INTERVAL_MS),
            *final(self) == if r {
                Session { last_ping_ms: now, ..*old(self) }
            } else {
                *old(self)
            },
    {
        if self.joined && now.saturating_sub(self.last_ping_ms) >= PING_INTERVAL_MS {
            self.last_ping_ms = now;
            true
        } else {
            false
        }
    }

    /// Takes in one message from the authority.
    pub fn on_server<S>(&mut self, msg: ServerMessage<S>) -> (r: Response<S>)
        ensures
            match msg {
                ServerMessage::JoinAccept { entity } | ServerMessage::Redirect { entity } => {
                    &&& *final(self) == (Session { local_id: entity, joined: true, ..*old(self) })
                    &&& r == Response::<S>::Rehome(entity)
                },
                ServerMessage::JoinReject | ServerMessage::Kick => {
                    &&& *final(self) == (Session { joined: false, ..*old(self) })
                    &&& r == Response::<S>::Nothing
                },
                ServerMessage::Snapshot(snapshot) => {
                    &&& *final(self) == *old(self)
                    &&& r == Response::Apply(snapshot)
                },
                ServerMessage::Pong { client_time_ms } => {
                    &&& *final(self) == *old(self)
                    &&& r == Response::<S>::RoundTrip(client_time_ms)
                },
                ServerMessage::Karma => {
                    &&& *final(self) == *old(self)
                    &&& r == Response::<S>::Nothing
                },
            },
    {
        match msg {
            ServerMessage::JoinAccept { entity } => {
                self.local_id = entity;
                self.joined = true;
                Response::Rehome(entity)
            },
            ServerMessage::Redirect { entity } => {
                self.local_id = entity;
                self.joined = true;
                Response::Rehome(entity)
            },
            ServerMessage::JoinReject => {
                self.joined = false;
                Response::Nothing
            },
            ServerMessage::Kick => {
                self.joined = false;
                Response::Nothing
            },
            ServerMessage::Snapshot(snapshot) => Response::Apply(snapshot),
            ServerMessage::Pong { client_time_ms } => Response::RoundTrip(client_time_ms),
            ServerMessage::Karma => Response::Nothing,
        }
    }

    /// Counts one hosted frame and says what else it does: a join (a no-op once there is a
    /// body) every 20 frames, the page every 6, a log line every 180.
    pub fn hosted_frame(&mut self) -> (r: Chores)
        ensures
            *final(self) == (Session {
                frame_count: old(self).frame_count.wrapping_add(1),
                ..*old(self)
            }),
            r == (Chores {
                ensure_joined: old(self).frame_count % 20 == 0,
                publish_hud: old(self).frame_count % 6 == 0,
                log: final(self).frame_count % 180 == 0,
            }),
    {
        let ensure_joined = self.frame_count % 20 == 0;
        let publish_hud = self.frame_count % 6 == 0;
        self.frame_count = self.frame_count.wrapping_add(1);
        Chores { ensure_joined, publish_hud, log: self.frame_count % 180 == 0 }
    }
}

/// The next zone to upload: the first in the order that is not resident yet, which is then
/// taken to be. At most one a frame, so that every frame stays responsive.
pub fn next_upload(order: &Vec<ZoneId>, uploaded: &mut Vec<ZoneId>) -> (r: Option<ZoneId>)
    ensures
        match r {
            Some(zone) => {
                &&& final(uploaded)@ == old(uploaded)@.push(zone)
                &&& !old(uploaded)@.contains(zone)
                &&& exists|k: int|
                    0 <= k < order@.len() && #[trigger] order@[k] == zone && forall|j: int|
                        0 <= j < k ==> old(uploaded)@.contains(#[trigger] order@[j])
            },
            None => {
                &&& final(uploaded)@ == old(uploaded)@
                &&& forall|j: int|
                    0 <= j < order@.len() ==> old(uploaded)@.contains(#[trigger] order@[j])
            },
        },
{
    let mut i: usize = 0;
    while i < order.len()
        invariant
            i <= order.len(),
            uploaded@ == old(uploaded)@,
            forall|j: int| 0 <= j < i ==> old(uploaded)@.contains(#[trigger] order@[j]),
        decreases order.len() - i,
    {
        let zone = order[i];
        let mut known = false;
        let mut k: usize = 0;
        while k < uploaded.len() && !known
            invariant
                k <= uploaded.len(),
                known ==> uploaded@.contains(zone),
                !known ==> forall|j: int| 0 <= j < k ==> #[trigger] uploaded@[j] != zone,
            decreases uploaded.len() - k,
        {
            if uploaded[k] == zone {
                known = true;
                assert(uploaded@[k as int] == zone);
            }
            k = k + 1;
        }
        if !known {
            uploaded.push(zone);
            return Some(zone);
        }
        i = i + 1;
    }
    None
}

/// What is seen from inside the local player's head: where the local body stands in the
/// list of entities, and the places of all others, in order. `ids` are the entities' ids.
pub fn first_person(ids: &Vec<EntityId>, local: EntityId) -> (r: (Option<usize>, Vec<usize>))
    ensures
        match r.0 {
            Some(i) => i < ids@.len() && ids@[i as int] == local && forall|j: int|
                0 <= j < i ==> ids@[j] != local,
            None => forall|j: int| 0 <= j < ids@.len() ==> ids@[j] != local,
        },
        r.1@ == others(ids@, local),
{
    let mut found: Option<usize> = None;
    let mut rest: Vec<usize> = Vec::new();
    let mut i: usize = 0;
    while i < ids.len()
        invariant
            i <= ids.len(),
            match found {
                Some(k) => k < i && ids@[k as int] == local && forall|j: int|
                    0 <= j < k ==> ids@[j] != local,
                None => forall|j: int| 0 <= j < i ==> ids@[j] != local,
            },
            rest@ == others(ids@.take(i as int), local),
        decreases ids.len() - i,
    {
        assert(ids@.take(i + 1).drop_last() =~= ids@.take(i as int));
        if ids[i] == local {
            if found.is_none() {
                found = Some(i);
            }
        } else {
            rest.push(i);
        }
        i = i + 1;
    }
    assert(ids@.take(ids@.len() as int) =~= ids@);
    (found, rest)
}

/// The places of all ids but the local one, ascending.
pub open spec fn others(ids: Seq<EntityId>, local: EntityId) -> Seq<usize>
    decreases ids.len(),
{
    if ids.len() == 0 {
        Seq::empty()
    } else if ids.last() == local {
        others(ids.drop_last(), local)
    } else {
        others(ids.drop_last(), local).push((ids.len() - 1) as usize)
    }
}

/// Zones stream in one by one until all are resident: as long as one of the order is
/// missing, the next frame uploads one.
pub proof fn terrain_streams_in(order: Seq<ZoneId>, uploaded: Seq<ZoneId>, k: int)
    requires
        0 <= k < order.len(),
        !uploaded.contains(order[k]),
    ensures
        exists|j: int|
            0 <= j <= k && !uploaded.contains(#[trigger] order[j]) && forall|i: int|
                0 <= i < j ==> uploaded.contains(#[trigger] order[i]),
    decreases k,
{
    if exists|i: int| 0 <= i < k && !uploaded.contains(#[trigger] order[i]) {
        let i = choose|i: int| 0 <= i < k && !uploaded.contains(#[trigger] order[i]);
        terrain_streams_in(order, uploaded, i);
    }
}

/// Time is neither lost nor made: where subtracting is exact, the time that was there is the ticks
/// that were taken and what is left of it.
pub proof fn ticks_account_for_the_time<M: Fn(Scalar, Scalar) -> Scalar>(
    minus: M,
    tick: Scalar,
    from: Scalar,
    n: nat,
    to: Scalar,
)
    requires
        drained(minus, tick, from, n, to),
        forall|a: Scalar, b: Scalar, r: Scalar| #[trigger]
            call_ensures(minus, (a, b), r) ==> r.units() == a.units() - b.units(),
    ensures
        from.units() == n * tick.units() + to.units(),
    decreases n,
{
    let m = n as int;
    let t = tick.units();
    if n > 0 {
        let mid = choose|mid: Scalar|
            drained(minus, tick, from, (n - 1) as nat, mid) && tick.at_most(mid)
                && #[trigger] call_ensures(minus, (mid, tick), to);
        ticks_account_for_the_time(minus, tick, from, (n - 1) as nat, mid);
        assert(m * t == (m - 1) * t + t) by (nonlinear_arith);
    } else {
        assert(m * t == 0) by (nonlinear_arith)
            requires
                m == 0,
        ;
    }
}

/// A tick is taken only where there is time for it.
pub proof fn a_tick_needs_its_time<M: Fn(Scalar, Scalar) -> Scalar>(
    minus: M,
    tick: Scalar,
    from: Scalar,
    n: nat,
    to: Scalar,
)
    requires
        drained(minus, tick, from, n, to),
    ensures
        n == 0 ==> to == from,
        n > 0 ==> tick.at_most(from),
    decreases n,
{
    if n > 0 {
        let mid = choose|mid: Scalar|
            drained(minus, tick, from, (n - 1) as nat, mid) && tick.at_most(mid)
                && #[trigger] call_ensures(minus, (mid, tick), to);
        a_tick_needs_its_time(minus, tick, from, (n - 1) as nat, mid);
    }
}

/// Everyone else is seen, and oneself is not: the places listed are exactly those of other ids,
/// ascending.
pub proof fn all_others_are_seen(ids: Seq<EntityId>, local: EntityId)
    requires
        ids.len() <= usize::MAX,
    ensures
        forall|i: int|
            0 <= i < ids.len() ==> (others(ids, local).contains(i as usize) <==> #[trigger] ids[i]
                != local),
        forall|k: int|
            0 <= k < others(ids, local).len() ==> (#[trigger] others(ids, local)[k]) < ids.len(),
        forall|j: int, k: int|
            0 <= j < k < others(ids, local).len() ==> #[trigger] others(ids, local)[j]
                < #[trigger] others(ids, local)[k],
    decreases ids.len(),
{
    if ids.len() > 0 {
        let init = ids.drop_last();
        let (was, now) = (others(init, local), others(ids, local));
        let last = ids.len() - 1;
        all_others_are_seen(init, local);
        assert forall|i: int| 0 <= i < ids.len() implies (now.contains(i as usize)
            <==> #[trigger] ids[i] != local) by {
            if i < last {
                assert(init[i] == ids[i]);
                if was.contains(i as usize) {
                    let k = choose|k: int| 0 <= k < was.len() && was[k] == i as usize;
                    assert(now[k] == i as usize);
                }
                if now.contains(i as usize) {
                    let k = choose|k: int| 0 <= k < now.len() && now[k] == i as usize;
                    assert(was[k] == i as usize);
                }
            } else {
                if ids[i] != local {
                    assert(now[now.len() - 1] == i as usize);
                } else if now.contains(i as usize) {
                    let k = choose|k: int| 0 <= k < now.len() && now[k] == i as usize;
                    assert(was[k] < init.len());
                }
            }
        }
    }
}

/// Pings keep their distance, and come when they are due: after one, the next comes no less than a
/// second later, and comes as soon as it is asked for then.
pub proof fn pings_keep_their_distance(
    first: &mut Session,
    then: u64,
    second: &mut Session,
    now: u64,
    pinged: bool,
)
    requires
        call_ensures(Session::ping_due, (first, then), true),
        *old(second) == *final(first),
        call_ensures(Session::ping_due, (second, now), pinged),
    ensures
        old(first).joined,
        pinged <==> now >= then + 1000,
        final(second).joined,
{
}

/// From the moment that a body is assigned, ticks are stamped with the server's time and the body's
/// id is known; from a kick or a refusal on, they are not, nothing is sent and nobody is pinged.
pub proof fn joining_opens_and_kicking_closes<S>(
    joining: &mut Session,
    entity: EntityId,
    redirected: bool,
    welcome: Response<S>,
    playing: &mut Session,
    estimated: u32,
    every: u32,
    stamped: (u32, bool),
    leaving: &mut Session,
    refused: bool,
    farewell: Response<S>,
    idle: &mut Session,
    unstamped: (u32, bool),
    quiet: &mut Session,
    now: u64,
    pinged: bool,
)
    requires
        call_ensures(
            Session::on_server::<S>,
            (
                joining,
                if redirected {
                    ServerMessage::Redirect { entity }
                } else {
                    ServerMessage::JoinAccept { entity }
                },
            ),
            welcome,
        ),
        *old(playing) == *final(joining),
        call_ensures(Session::begin_tick, (playing, estimated, every), stamped),
        every == 1,
        *old(leaving) == *final(playing),
        call_ensures(
            Session::on_server::<S>,
            (
                leaving,
                if refused {
                    ServerMessage::JoinReject
                } else {
                    ServerMessage::Kick
                },
            ),
            farewell,
        ),
        *old(idle) == *final(leaving),
        call_ensures(Session::begin_tick, (idle, estimated, every), unstamped),
        *old(quiet) == *final(idle),
        call_ensures(Session::ping_due, (quiet, now), pinged),
    ensures
        welcome == Response::<S>::Rehome(entity),
        final(playing).local_id == entity,
        stamped == (estimated, true),
        farewell is Nothing,
        unstamped == (0u32, false),
        !pinged,
        old(joining).tick_counter < u32::MAX - 1 ==> final(idle).tick_counter
            == old(joining).tick_counter + 2,
{
}

/// Everything else that the authority says leaves the session as it is, and is handed on whole.
pub proof fn messages_are_handed_on<S>(session: &mut Session, msg: ServerMessage<S>, r: Response<S>)
    requires
        call_ensures(Session::on_server::<S>, (session, msg), r),
        msg is Snapshot || msg is Pong || msg is Karma,
    ensures
        *final(session) == *old(session),
        msg matches ServerMessage::Snapshot(s) ==> r == Response::Apply(s),
        msg matches ServerMessage::Pong { client_time_ms } ==> r == Response::<S>::RoundTrip(
            client_time_ms,
        ),
        msg is Karma ==> r is Nothing,
{
}

/// The times between frames add up to the time that passed, and a clock that goes back adds nothing.
pub proof fn frame_times_add_up(first: &mut Session, now: u64, a: u64, second: &mut Session, later: u64, b: u64)
    requires
        call_ensures(Session::elapsed, (first, now), a),
        *old(second) == *final(first),
        call_ensures(Session::elapsed, (second, later), b),
    ensures
        old(first).last_ms <= now <= later ==> a + b == later - old(first).last_ms,
        now < old(first).last_ms ==> a == 0,
        later < now ==> b == 0,
        final(second).last_ms == later,
{
}

/// A frame simulates no more than eight ticks; where it would take more, nothing is left over for the
/// next, and otherwise less than a tick is.
pub proof fn backlogs_are_dropped<P: Fn(Scalar, Scalar) -> Scalar, M: Fn(Scalar, Scalar) -> Scalar>(
    session: &mut Session,
    dt: Scalar,
    tick: Scalar,
    plus: &P,
    minus: &M,
    r: u32,
)
    requires
        call_ensures(Session::ticks_due::<P, M>, (session, dt, tick, plus, minus), r),
    ensures
        r <= 8,
        r == 8 ==> final(session).accumulator == (Scalar { bits: 0 }),
        r < 8 ==> !tick.at_most(final(session).accumulator),
        final(session).tick_counter == old(session).tick_counter,
        final(session).joined == old(session).joined,
{
}

/// Hosted frames are counted, and each chore comes round in its own turn: a join every twentieth frame,
/// the page every sixth, a log line after every hundred and eightieth.
pub proof fn chores_come_round(session: &mut Session, r: Chores)
    requires
        call_ensures(Session::hosted_frame, (session,), r),
        old(session).frame_count < u32::MAX,
    ensures
        final(session).frame_count == old(session).frame_count + 1,
        r.ensure_joined <==> old(session).frame_count % 20 == 0,
        r.publish_hud <==> old(session).frame_count % 6 == 0,
        r.log <==> (old(session).frame_count + 1) % 180 == 0,
{
}

/// No zone is uploaded twice: what one frame takes, the next does not.
pub proof fn zones_are_uploaded_once(
    order: &Vec<ZoneId>,
    first: &mut Vec<ZoneId>,
    a: ZoneId,
    second: &mut Vec<ZoneId>,
    b: Option<ZoneId>,
)
    requires
        call_ensures(next_upload, (order, first), Some(a)),
        *old(second) == *final(first),
        call_ensures(next_upload, (order, second), b),
    ensures
        order@.contains(a),
        !old(first)@.contains(a),
        final(second)@.contains(a),
        b matches Some(zone) ==> zone != a && order@.contains(zone) && final(second)@ == old(first)@.push(a).push(zone),
{
    assert(final(first)@[old(first)@.len() as int] == a);
    assert(final(first)@.contains(a));
    if b is Some {
        assert(final(second)@[old(first)@.len() as int] == a);
    }
}

} // verus!
