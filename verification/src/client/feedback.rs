//! Game-feel feedback: the layer that turns *what happened* into *what the player feels*.
//!
//! The authoritative sim emits a stream of [`GameEvent`]s every snapshot. This module reads
//! that stream from the **local player's** point of view and decides what each event does
//! to the three channels that make combat read in the body: camera shake (a single scalar
//! *trauma*), view kick, and a screen flash with the direction the damage came from.
//!
//! None of this touches the *input* look angles the netcode sends: feel is local; truth is
//! authority.

use crate::client::event::{EntityId, GameEvent, MeleeKind};
use crate::scalar::{dec, decimal, one, zero, Scalar, ONE};
use vstd::prelude::*;

verus! {

/// One thing that an event does to the local player's senses.
#[derive(Debug, Clone, Copy, PartialEq, Eq)]
pub enum Reaction {
    /// A detonation rattles the camera, scaled by blast size and proximity; a close one
    /// flashes too.
    Blast { center: [Scalar; 3], radius: Scalar },
    /// An authored shake, falling off over a generous radius.
    Rumble { center: [Scalar; 3], trauma: Scalar },
    /// We were hit: shake, a red flash and a recoil kick by severity, and a direction to
    /// remember.
    Hurt { damage: Scalar, point: [Scalar; 3] },
    /// A force shoved us: shake, kick and lurch by its strength.
    Shove { impulse: [Scalar; 3] },
    /// A restorative tick on us: a soft green wash by its amount.
    Healed { amount: Scalar },
    /// Punch the view-kick spring by fixed angles (yaw, pitch).
    Kick { yaw: Scalar, pitch: Scalar },
    /// Add a fixed amount of trauma.
    Jolt { trauma: Scalar },
    /// Flash the screen in a fixed colour and strength.
    Wash { color: [Scalar; 3], strength: Scalar },
    /// Wipe any residual feel.
    Reset,
}

/// How far a swing kicks the view (yaw, pitch): heaviest sideways on the spin finisher.
pub open spec fn swing_kick(kind: MeleeKind) -> (Scalar, Scalar) {
    match kind {
        MeleeKind::Slash => (decimal(5, 2), decimal(15, 3)),
        MeleeKind::Thrust => (decimal(0, 0), decimal(4, 2)),
        MeleeKind::Spin => (decimal(9, 2), decimal(1, 2)),
    }
}

/// The kick of fixed angles.
pub open spec fn is_kick(r: Reaction, yaw: Scalar, pitch: Scalar) -> bool {
    r == (Reaction::Kick { yaw, pitch })
}

/// The flash in a fixed colour and strength.
pub open spec fn is_wash(r: Reaction, color: Seq<Scalar>, strength: Scalar) -> bool {
    match r {
        Reaction::Wash { color: c, strength: s } => c@ == color && s == strength,
        _ => false,
    }
}

/// What the local player feels of an event. Events that do not involve the local player
/// still contribute world shake (a nearby explosion rattles you).
pub open spec fn felt(event: GameEvent, me: EntityId, r: Seq<Reaction>) -> bool {
    match event {
        GameEvent::Explosion { center, radius } => r == seq![Reaction::Blast { center, radius }],
        GameEvent::Shake { center, trauma } => r == seq![Reaction::Rumble { center, trauma }],
        GameEvent::Hit { attacker, victim, damage, point, .. } => if victim == me {
            r == seq![Reaction::Hurt { damage, point }]
        } else if attacker == me {
            r.len() == 1 && is_kick(r[0], decimal(0, 0), decimal(8, 3))
        } else {
            r.len() == 0
        },
        GameEvent::Knockback { entity, impulse } => if entity == me {
            r == seq![Reaction::Shove { impulse }]
        } else {
            r.len() == 0
        },
        GameEvent::Melee { attacker, victim, kind, .. } => if attacker == me {
            &&& r.len() == if victim is Some {
                2int
            } else {
                1
            }
            &&& is_kick(r[0], swing_kick(kind).0, swing_kick(kind).1)
            &&& victim is Some ==> r[1] == (Reaction::Jolt {
                trauma: if kind == MeleeKind::Spin {
                    decimal(22, 2)
                } else {
                    decimal(12, 2)
                },
            })
        } else {
            r.len() == 0
        },
        GameEvent::Shot { shooter, .. } => if shooter == me {
            r.len() == 1 && is_kick(r[0], decimal(0, 0), decimal(2, 2))
        } else {
            r.len() == 0
        },
        GameEvent::Heal { target, amount } => if target == me {
            r == seq![Reaction::Healed { amount }]
        } else {
            r.len() == 0
        },
        GameEvent::Buff { entity, beneficial } => if entity == me {
            r.len() == 1 && is_wash(
                r[0],
                if beneficial {
                    seq![decimal(85, 2), decimal(7, 1), decimal(2, 1)]
                } else {
                    seq![decimal(4, 1), decimal(1, 1), decimal(5, 1)]
                },
                decimal(22, 2),
            )
        } else {
            r.len() == 0
        },
        GameEvent::Death { victim, .. } => if victim == me {
            &&& r.len() == 2
            &&& r[0] == (Reaction::Jolt { trauma: decimal(1, 0) })
            &&& is_wash(r[1], seq![decimal(45, 2), decimal(0, 0), decimal(0, 0)], decimal(85, 2))
        } else {
            r.len() == 0
        },
        GameEvent::Spawn { entity, .. } => if entity == me {
            r == seq![Reaction::Reset]
        } else {
            r.len() == 0
        },
        GameEvent::Unhandled => r.len() == 0,
    }
}

fn kick_of(kind: MeleeKind) -> (r: (Scalar, Scalar))
    ensures
        r == swing_kick(kind),
{
    match kind {
        MeleeKind::Slash => (dec(5, 2), dec(15, 3)),
        MeleeKind::Thrust => (dec(0, 0), dec(4, 2)),
        MeleeKind::Spin => (dec(9, 2), dec(1, 2)),
    }
}

/// Interpret one [`GameEvent`] from the vantage of the local player `me`.
pub fn react(event: &GameEvent, me: EntityId) -> (r: Vec<Reaction>)
    ensures
        felt(*event, me, r@),
{
    let mut out: Vec<Reaction> = Vec::new();
    match event {
        GameEvent::Explosion { center, radius } => {
            out.push(Reaction::Blast { center: *center, radius: *radius });
        },
        GameEvent::Shake { center, trauma } => {
            out.push(Reaction::Rumble { center: *center, trauma: *trauma });
        },
        GameEvent::Hit { attacker, victim, damage, point, .. } => {
            if *victim == me {
                out.push(Reaction::Hurt { damage: *damage, point: *point });
            } else if *attacker == me {
                out.push(Reaction::Kick { yaw: dec(0, 0), pitch: dec(8, 3) });
            }
        },
        GameEvent::Knockback { entity, impulse } => {
            if *entity == me {
                out.push(Reaction::Shove { impulse: *impulse });
            }
        },
        GameEvent::Melee { attacker, victim, kind, .. } => {
            if *attacker == me {
                let (yaw, pitch) = kick_of(*kind);
                out.push(Reaction::Kick { yaw, pitch });
                if victim.is_some() {
                    let trauma = if *kind == MeleeKind::Spin {
                        dec(22, 2)
                    } else {
                        dec(12, 2)
                    };
                    out.push(Reaction::Jolt { trauma });
                }
            }
        },
        GameEvent::Shot { shooter, .. } => {
            if *shooter == me {
                out.push(Reaction::Kick { yaw: dec(0, 0), pitch: dec(2, 2) });
            }
        },
        GameEvent::Heal { target, amount } => {
            if *target == me {
                out.push(Reaction::Healed { amount: *amount });
            }
        },
        GameEvent::Buff { entity, beneficial } => {
            if *entity == me {
                let color = if *beneficial {
                    [dec(85, 2), dec(7, 1), dec(2, 1)]
                } else {
                    [dec(4, 1), dec(1, 1), dec(5, 1)]
                };
                out.push(Reaction::Wash { color, strength: dec(22, 2) });
            }
        },
        GameEvent::Death { victim, .. } => {
            if *victim == me {
                out.push(Reaction::Jolt { trauma: dec(1, 0) });
                out.push(
                    Reaction::Wash { color: [dec(45, 2), dec(0, 0), dec(0, 0)], strength: dec(85, 2) },
                );
            }
        },
        GameEvent::Spawn { entity, .. } => {
            if *entity == me {
                out.push(Reaction::Reset);
            }
        },
        GameEvent::Unhandled => {},
    }
    out
}

/// The whole game-feel state, advanced once per frame and stamped onto the camera.
#[derive(Debug, Clone, Copy, PartialEq, Eq)]
pub struct Feedback {
    /// Accumulated trauma in 0..1; shake = trauma^2.
    pub trauma: Scalar,
    /// Free-running clock (seconds) the shake noise is sampled against.
    pub time: Scalar,
    /// Spring-driven look-angle kick `(yaw, pitch)` in radians, and its velocity.
    pub kick: [Scalar; 2],
    pub kick_vel: [Scalar; 2],
    /// Positional lurch (world metres) and its spring velocity.
    pub lurch: [Scalar; 3],
    pub lurch_vel: [Scalar; 3],
    /// Screen flash strength 0..1 and its linear-RGB tint.
    pub flash: Scalar,
    pub flash_color: [Scalar; 3],
    /// Most-recent incoming-damage direction (world, horizontal, unit) + lifetime.
    pub damage_dir: Option<([Scalar; 2], Scalar)>,
}

/// The arithmetic of one frame on a [`Feedback`]: what each channel comes to by its own
/// decay or spring. [`Feedback::update`] bounds and expires them.
#[derive(Debug, Clone, Copy, PartialEq, Eq)]
pub struct Decay {
    pub time: Scalar,
    /// Trauma less what bleeds off; may be negative.
    pub trauma: Scalar,
    /// Flash less its fade; may be negative.
    pub flash: Scalar,
    pub kick: [Scalar; 2],
    pub kick_vel: [Scalar; 2],
    pub lurch: [Scalar; 3],
    pub lurch_vel: [Scalar; 3],
    /// What is left of the damage indicator's lifetime, if there is one.
    pub damage_ttl: Scalar,
}

/// Two zeros.
pub open spec fn still2(v: [Scalar; 2]) -> bool {
    v@ == seq![Scalar { bits: 0 }, Scalar { bits: 0 }]
}

/// Three zeros.
pub open spec fn still3(v: [Scalar; 3]) -> bool {
    v@ == seq![Scalar { bits: 0 }, Scalar { bits: 0 }, Scalar { bits: 0 }]
}

impl Default for Feedback {
    fn default() -> (r: Self)
        ensures
            r.calm(),
            r.time.bits == 0,
            still3(r.flash_color),
    {
        Feedback {
            trauma: zero(),
            time: zero(),
            kick: [zero(), zero()],
            kick_vel: [zero(), zero()],
            lurch: [zero(), zero(), zero()],
            lurch_vel: [zero(), zero(), zero()],
            flash: zero(),
            flash_color: [zero(), zero(), zero()],
            damage_dir: None,
        }
    }
}

impl Feedback {
    /// Nothing is felt.
    pub open spec fn calm(self) -> bool {
        &&& self.trauma.bits == 0
        &&& still2(self.kick)
        &&& still2(self.kick_vel)
        &&& still3(self.lurch)
        &&& still3(self.lurch_vel)
        &&& self.flash.bits == 0
        &&& self.damage_dir is None
    }

    pub fn new() -> (r: Self)
        ensures
            r.calm(),
            r.time.bits == 0,
            still3(r.flash_color),
    {
        Feedback::default()
    }

    /// Current screen-flash strength (0..1) and tint — for the HUD pass to composite a
    /// full-screen vignette/wash.
    pub fn flash(&self) -> (r: (Scalar, [Scalar; 3]))
        ensures
            r == (self.flash.clamped(Scalar { bits: 0 }, Scalar { bits: ONE }), self.flash_color),
    {
        (self.flash.clamp(zero(), one()), self.flash_color)
    }

    /// The direction (world-space, horizontal unit vector) the most recent damage came
    /// from, if it is still fresh — for a directional damage indicator.
    pub fn damage_from(&self) -> (r: Option<[Scalar; 2]>)
        ensures
            match self.damage_dir {
                Some(d) => r == Some(d.0),
                None => r is None,
            },
    {
        match self.damage_dir {
            Some(d) => Some(d.0),
            None => None,
        }
    }

    /// Current normalised trauma.
    pub fn trauma(&self) -> (r: Scalar)
        ensures
            r == self.trauma,
    {
        self.trauma
    }

    /// Add trauma with `plus`, clamped to 0..1. The public hook for set-pieces and external
    /// systems.
    pub fn add_trauma<A: Fn(Scalar, Scalar) -> Scalar>(&mut self, amount: Scalar, plus: &A)
        requires
            forall|x: Scalar, y: Scalar| call_requires(*plus, (x, y)),
        ensures
            *final(self) == (Feedback { trauma: final(self).trauma, ..*old(self) }),
            exists|sum: Scalar| #[trigger]
                call_ensures(*plus, (old(self).trauma, amount), sum) && final(self).trauma
                    == sum.clamped(Scalar { bits: 0 }, Scalar { bits: ONE }),
    {
        let sum = plus(self.trauma, amount);
        assert(call_ensures(*plus, (self.trauma, amount), sum));
        self.trauma = sum.clamp(zero(), one());
    }

    /// Punch the view-kick spring by an angular impulse `(yaw, pitch)` in radians.
    pub fn add_kick<A: Fn(Scalar, Scalar) -> Scalar>(&mut self, yaw: Scalar, pitch: Scalar, plus: &A)
        requires
            forall|x: Scalar, y: Scalar| call_requires(*plus, (x, y)),
        ensures
            *final(self) == (Feedback { kick_vel: final(self).kick_vel, ..*old(self) }),
            call_ensures(*plus, (old(self).kick_vel@[0], yaw), final(self).kick_vel@[0]),
            call_ensures(*plus, (old(self).kick_vel@[1], pitch), final(self).kick_vel@[1]),
    {
        self.kick_vel = [plus(self.kick_vel[0], yaw), plus(self.kick_vel[1], pitch)];
    }

    /// Shove the positional lurch spring (world metres/second of impulse).
    pub fn add_lurch<A: Fn(Scalar, Scalar) -> Scalar>(&mut self, impulse: [Scalar; 3], plus: &A)
        requires
            forall|x: Scalar, y: Scalar| call_requires(*plus, (x, y)),
        ensures
            *final(self) == (Feedback { lurch_vel: final(self).lurch_vel, ..*old(self) }),
            forall|i: int|
                0 <= i < 3 ==> call_ensures(
                    *plus,
                    (old(self).lurch_vel@[i], impulse@[i]),
                    #[trigger] final(self).lurch_vel@[i],
                ),
    {
        self.lurch_vel = [
            plus(self.lurch_vel[0], impulse[0]),
            plus(self.lurch_vel[1], impulse[1]),
            plus(self.lurch_vel[2], impulse[2]),
        ];
    }

    /// Trigger a screen flash of `color` at `strength` (kept if at least as bright as the
    /// current flash, so a big hit is not washed out by a trailing faint one).
    pub fn add_flash(&mut self, color: [Scalar; 3], strength: Scalar)
        ensures
            *final(self) == if old(self).flash.at_most(strength) {
                Feedback {
                    flash: strength.clamped(Scalar { bits: 0 }, Scalar { bits: ONE }),
                    flash_color: color,
                    ..*old(self)
                }
            } else {
                *old(self)
            },
    {
        if strength.ge(self.flash) {
            self.flash = strength.clamp(zero(), one());
            self.flash_color = color;
        }
    }

    /// Record where incoming damage came from: the horizontal unit vector `dir` toward it,
    /// for one second, unless it came from too close to tell (`distance_squared`).
    pub fn remember_damage_dir(&mut self, dir: [Scalar; 2], distance_squared: Scalar)
        ensures
            *final(self) == if decimal(1, 4).below(distance_squared) {
                Feedback { damage_dir: Some((dir, decimal(1, 0))), ..*old(self) }
            } else {
                *old(self)
            },
    {
        if dec(1, 4).lt(distance_squared) {
            self.damage_dir = Some((dir, dec(1, 0)));
        }
    }

    /// Advance every channel by one frame. Trauma and flash bleed off to zero and no
    /// further; the damage indicator goes once its time is up.
    pub fn update(&mut self, decay: Decay)
        ensures
            *final(self) == (Feedback {
                time: decay.time,
                trauma: decay.trauma.floored(Scalar { bits: 0 }),
                flash: decay.flash.floored(Scalar { bits: 0 }),
                kick: decay.kick,
                kick_vel: decay.kick_vel,
                lurch: decay.lurch,
                lurch_vel: decay.lurch_vel,
                damage_dir: match old(self).damage_dir {
                    Some(d) => if decay.damage_ttl.at_most(Scalar { bits: 0 }) {
                        None
                    } else {
                        Some((d.0, decay.damage_ttl))
                    },
                    None => None,
                },
                ..*old(self)
            }),
    {
        self.time = decay.time;
        self.trauma = decay.trauma.max(zero());
        self.flash = decay.flash.max(zero());
        self.kick = decay.kick;
        self.kick_vel = decay.kick_vel;
        self.lurch = decay.lurch;
        self.lurch_vel = decay.lurch_vel;
        self.damage_dir = match self.damage_dir {
            Some(d) => {
                if decay.damage_ttl.le(zero()) {
                    None
                } else {
                    Some((d.0, decay.damage_ttl))
                }
            },
            None => None,
        };
    }

    /// Clear all transient feel (used on respawn).
    pub fn reset(&mut self)
        ensures
            final(self).calm(),
            final(self).time == old(self).time,
            final(self).flash_color == old(self).flash_color,
    {
        self.trauma = zero();
        self.kick = [zero(), zero()];
        self.kick_vel = [zero(), zero()];
        self.lurch = [zero(), zero(), zero()];
        self.lurch_vel = [zero(), zero(), zero()];
        self.flash = zero();
        self.damage_dir = None;
    }
}

/// What the local player senses of a reaction: the arithmetic on where and how hard it
/// happened. Only what the reaction calls for is read.
#[derive(Debug, Clone, Copy, PartialEq, Eq)]
pub struct Sensed {
    /// How near it happened, one at no distance (see [`proximity`]).
    pub proximity: Scalar,
    /// The trauma it adds.
    pub trauma: Scalar,
    /// The strength of its flash.
    pub strength: Scalar,
    /// The angular impulse (yaw, pitch) on the view.
    pub kick: [Scalar; 2],
    /// The impulse on the lurch spring.
    pub lurch: [Scalar; 3],
    /// The horizontal unit vector toward it, and the squared horizontal distance.
    pub dir: [Scalar; 2],
    pub distance_squared: Scalar,
}

/// 0 at/beyond `range`, 1 at zero distance — a linear proximity weight, of which `nearness`
/// is what is left of one after the share of the range that the distance takes.
pub fn proximity(range: Scalar, nearness: Scalar) -> (r: Scalar)
    ensures
        r == if range.at_most(Scalar { bits: 0 }) {
            Scalar { bits: 0 }
        } else {
            nearness.clamped(Scalar { bits: 0 }, Scalar { bits: ONE })
        },
{
    if range.le(zero()) {
        return zero();
    }
    nearness.clamp(zero(), one())
}

/// How severe a hit is, by the share of the heaviest that its damage makes: a tenth at least.
pub fn severity(share: Scalar) -> (r: Scalar)
    ensures
        r == share.clamped(decimal(1, 1), Scalar { bits: ONE }),
{
    share.clamp(dec(1, 1), one())
}

/// The trauma of a shove, by the share of the hardest that its strength makes: a half at
/// most.
pub fn shove_trauma(share: Scalar) -> (r: Scalar)
    ensures
        r == share.clamped(Scalar { bits: 0 }, decimal(5, 1)),
{
    share.clamp(zero(), dec(5, 1))
}

/// The strength of a healing wash, by the share of the largest that its amount makes.
pub fn mending_strength(share: Scalar) -> (r: Scalar)
    ensures
        r == share.clamped(decimal(5, 2), decimal(3, 1)),
{
    share.clamp(dec(5, 2), dec(3, 1))
}

/// What a reaction adds to each channel.
pub ghost struct Effect {
    pub trauma: Option<Scalar>,
    pub flash: Option<(Seq<Scalar>, Scalar)>,
    pub kick: Option<(Scalar, Scalar)>,
    pub lurch: Option<Seq<Scalar>>,
    /// Where it came from is remembered.
    pub remembered: bool,
}

/// What a reaction other than a reset adds to each channel, as it was sensed.
pub open spec fn effect(reaction: Reaction, sensed: Sensed) -> Effect {
    let none = Effect { trauma: None, flash: None, kick: None, lurch: None, remembered: false };
    match reaction {
        Reaction::Blast { .. } => Effect {
            trauma: Some(sensed.trauma),
            flash: if decimal(6, 1).below(sensed.proximity) {
                Some((seq![decimal(1, 0), decimal(5, 1), decimal(2, 1)], sensed.strength))
            } else {
                None
            },
            ..none
        },
        Reaction::Rumble { .. } => Effect { trauma: Some(sensed.trauma), ..none },
        Reaction::Hurt { .. } => Effect {
            trauma: Some(sensed.trauma),
            flash: Some((seq![decimal(8, 1), decimal(5, 2), decimal(5, 2)], sensed.strength)),
            kick: Some((sensed.kick@[0], sensed.kick@[1])),
            remembered: true,
            ..none
        },
        Reaction::Shove { .. } => Effect {
            trauma: Some(sensed.trauma),
            kick: Some((sensed.kick@[0], sensed.kick@[1])),
            lurch: Some(sensed.lurch@),
            ..none
        },
        Reaction::Healed { .. } => Effect {
            flash: Some((seq![decimal(1, 1), decimal(7, 1), decimal(25, 2)], sensed.strength)),
            ..none
        },
        Reaction::Kick { yaw, pitch } => Effect { kick: Some((yaw, pitch)), ..none },
        Reaction::Jolt { trauma } => Effect { trauma: Some(trauma), ..none },
        Reaction::Wash { color, strength } => Effect { flash: Some((color@, strength)), ..none },
        Reaction::Reset => none,
    }
}

/// `after` is `before` with an effect taken: trauma and impulses are summed by `plus`, trauma
/// kept in 0..1; of two flashes the brighter stays; a direction is remembered unless it came
/// from too close to tell.
pub open spec fn takes<A: Fn(Scalar, Scalar) -> Scalar>(
    before: Feedback,
    e: Effect,
    sensed: Sensed,
    plus: A,
    after: Feedback,
) -> bool {
    &&& after.time == before.time
    &&& after.kick == before.kick
    &&& after.lurch == before.lurch
    &&& match e.trauma {
        Some(amount) => exists|sum: Scalar| #[trigger]
            call_ensures(plus, (before.trauma, amount), sum) && after.trauma == sum.clamped(
                Scalar { bits: 0 },
                Scalar { bits: ONE },
            ),
        None => after.trauma == before.trauma,
    }
    &&& match e.flash {
        Some((color, strength)) if before.flash.at_most(strength) => {
            &&& after.flash == strength.clamped(Scalar { bits: 0 }, Scalar { bits: ONE })
            &&& after.flash_color@ == color
        },
        _ => after.flash == before.flash && after.flash_color == before.flash_color,
    }
    &&& match e.kick {
        Some((yaw, pitch)) => {
            &&& call_ensures(plus, (before.kick_vel@[0], yaw), after.kick_vel@[0])
            &&& call_ensures(plus, (before.kick_vel@[1], pitch), after.kick_vel@[1])
        },
        None => after.kick_vel == before.kick_vel,
    }
    &&& match e.lurch {
        Some(impulse) => forall|i: int|
            0 <= i < 3 ==> call_ensures(
                plus,
                (before.lurch_vel@[i], impulse[i]),
                #[trigger] after.lurch_vel@[i],
            ),
        None => after.lurch_vel == before.lurch_vel,
    }
    &&& after.damage_dir == if e.remembered && decimal(1, 4).below(sensed.distance_squared) {
        Some((sensed.dir, decimal(1, 0)))
    } else {
        before.damage_dir
    }
}

/// `after` is what a reaction makes of `before`.
pub open spec fn feels<A: Fn(Scalar, Scalar) -> Scalar>(
    before: Feedback,
    reaction: Reaction,
    sensed: Sensed,
    plus: A,
    after: Feedback,
) -> bool {
    if reaction is Reset {
        after.calm() && after.time == before.time && after.flash_color == before.flash_color
    } else {
        takes(before, effect(reaction, sensed), sensed, plus, after)
    }
}

/// `states` are what the reactions make of the first of them, one after the other, each as
/// `sense` has it.
pub open spec fn feels_all<S: Fn(Reaction) -> Sensed, A: Fn(Scalar, Scalar) -> Scalar>(
    reactions: Seq<Reaction>,
    senses: Seq<Sensed>,
    sense: S,
    plus: A,
    states: Seq<Feedback>,
) -> bool {
    &&& senses.len() == reactions.len()
    &&& states.len() == reactions.len() + 1
    &&& forall|k: int|
        0 <= k < reactions.len() ==> call_ensures(sense, (reactions[k],), #[trigger] senses[k])
            && feels(states[k], reactions[k], senses[k], plus, states[k + 1])
}

impl Feedback {
    /// Feel one reaction.
    pub fn feel<A: Fn(Scalar, Scalar) -> Scalar>(
        &mut self,
        reaction: Reaction,
        sensed: Sensed,
        plus: &A,
    )
        requires
            forall|x: Scalar, y: Scalar| call_requires(*plus, (x, y)),
        ensures
            feels(*old(self), reaction, sensed, *plus, *final(self)),
    {
        match reaction {
            Reaction::Blast { .. } => {
                self.add_trauma(sensed.trauma, plus);
                if dec(6, 1).lt(sensed.proximity) {
                    self.add_flash([dec(1, 0), dec(5, 1), dec(2, 1)], sensed.strength);
                }
            },
            Reaction::Rumble { .. } => {
                self.add_trauma(sensed.trauma, plus);
            },
            Reaction::Hurt { .. } => {
                self.add_trauma(sensed.trauma, plus);
                self.add_flash([dec(8, 1), dec(5, 2), dec(5, 2)], sensed.strength);
                self.add_kick(sensed.kick[0], sensed.kick[1], plus);
                self.remember_damage_dir(sensed.dir, sensed.distance_squared);
            },
            Reaction::Shove { .. } => {
                self.add_trauma(sensed.trauma, plus);
                self.add_kick(sensed.kick[0], sensed.kick[1], plus);
                self.add_lurch(sensed.lurch, plus);
            },
            Reaction::Healed { .. } => {
                self.add_flash([dec(1, 1), dec(7, 1), dec(25, 2)], sensed.strength);
            },
            Reaction::Kick { yaw, pitch } => {
                self.add_kick(yaw, pitch, plus);
            },
            Reaction::Jolt { trauma } => {
                self.add_trauma(trauma, plus);
            },
            Reaction::Wash { color, strength } => {
                self.add_flash(color, strength);
            },
            Reaction::Reset => {
                self.reset();
            },
        }
    }

    /// Interpret one [`GameEvent`] from the vantage of the local player `me` and update the
    /// feel channels: everything that the event sets off, in order, each as `sense` has it.
    pub fn ingest<S: Fn(Reaction) -> Sensed, A: Fn(Scalar, Scalar) -> Scalar>(
        &mut self,
        event: &GameEvent,
        me: EntityId,
        sense: &S,
        plus: &A,
    )
        requires
            forall|x: Scalar, y: Scalar| call_requires(*plus, (x, y)),
            forall|reaction: Reaction| call_requires(*sense, (reaction,)),
        ensures
            exists|reactions: Seq<Reaction>, senses: Seq<Sensed>, states: Seq<Feedback>|
                {
                    &&& #[trigger] felt(*event, me, reactions)
                    &&& #[trigger] feels_all(reactions, senses, *sense, *plus, states)
                    &&& states[0] == *old(self)
                    &&& states.last() == *final(self)
                },
    {
        let reactions = react(event, me);
        let ghost mut senses: Seq<Sensed> = Seq::empty();
        let ghost mut states: Seq<Feedback> = seq![*self];
        let mut k: usize = 0;
        while k < reactions.len()
            invariant
                k <= reactions.len(),
                forall|x: Scalar, y: Scalar| call_requires(*plus, (x, y)),
                forall|reaction: Reaction| call_requires(*sense, (reaction,)),
                feels_all(reactions@.take(k as int), senses, *sense, *plus, states),
                states[0] == *old(self),
                states.last() == *self,
            decreases reactions.len() - k,
        {
            let reaction = reactions[k];
            let ghost before = *self;
            let sensed = sense(reaction);
            self.feel(reaction, sensed, plus);
            proof {
                let (sensed_before, states_before) = (senses, states);
                senses = senses.push(sensed);
                states = states.push(*self);
                let done = reactions@.take(k + 1);
                assert forall|m: int| 0 <= m < done.len() implies call_ensures(
                    *sense,
                    (done[m],),
                    #[trigger] senses[m],
                ) && feels(states[m], done[m], senses[m], *plus, states[m + 1]) by {
                    if m < k {
                        assert(reactions@.take(k as int)[m] == done[m]);
                        assert(senses[m] == sensed_before[m]);
                        assert(states[m] == states_before[m] && states[m + 1]
                            == states_before[m + 1]);
                    } else {
                        assert(states[m] == before);
                    }
                }
            }
            k = k + 1;
        }
        proof {
            assert(reactions@.take(reactions@.len() as int) =~= reactions@);
            assert(felt(*event, me, reactions@));
            assert(feels_all(reactions@, senses, *sense, *plus, states));
        }
    }
}

/// Our (re)spawn wipes any residual feel, whatever came before.
pub proof fn respawn_starts_clean<S: Fn(Reaction) -> Sensed, A: Fn(Scalar, Scalar) -> Scalar>(
    event: GameEvent,
    me: EntityId,
    reactions: Seq<Reaction>,
    senses: Seq<Sensed>,
    sense: S,
    plus: A,
    states: Seq<Feedback>,
)
    requires
        event matches GameEvent::Spawn { entity, .. } && entity == me,
        felt(event, me, reactions),
        feels_all(reactions, senses, sense, plus, states),
    ensures
        states.last().calm(),
{
    assert(call_ensures(sense, (reactions[0],), senses[0]));
    assert(states[1] == states.last());
}

/// A big hit is not washed out by a trailing faint one: a flash weaker than the one on
/// screen changes neither its strength nor its colour.
pub proof fn big_flash_is_kept<A: Fn(Scalar, Scalar) -> Scalar>(
    before: Feedback,
    reaction: Reaction,
    sensed: Sensed,
    plus: A,
    after: Feedback,
)
    requires
        feels(before, reaction, sensed, plus, after),
        !(reaction is Reset),
        effect(reaction, sensed).flash matches Some((_, strength)) && strength.below(before.flash),
    ensures
        after.flash == before.flash,
        after.flash_color == before.flash_color,
{
}

/// Trauma never leaves 0..1, as long as the sums are numbers.
pub proof fn trauma_stays_in_range<A: Fn(Scalar, Scalar) -> Scalar>(
    before: Feedback,
    reaction: Reaction,
    sensed: Sensed,
    plus: A,
    after: Feedback,
)
    requires
        feels(before, reaction, sensed, plus, after),
        (Scalar { bits: 0 }).at_most(before.trauma),
        before.trauma.at_most(Scalar { bits: ONE }),
        forall|amount: Scalar, sum: Scalar| #[trigger]
            call_ensures(plus, (before.trauma, amount), sum) ==> !sum.nan(),
    ensures
        (Scalar { bits: 0 }).at_most(after.trauma),
        after.trauma.at_most(Scalar { bits: ONE }),
{
}

/// What happens to others is felt only as world shake: an event that involves the local
/// player in no role sets off a blast, a rumble, or nothing.
pub proof fn others_troubles_only_shake(event: GameEvent, me: EntityId, r: Seq<Reaction>)
    requires
        felt(event, me, r),
        match event {
            GameEvent::Hit { attacker, victim, .. } => attacker != me && victim != me,
            GameEvent::Knockback { entity, .. } => entity != me,
            GameEvent::Melee { attacker, .. } => attacker != me,
            GameEvent::Shot { shooter, .. } => shooter != me,
            GameEvent::Heal { target, .. } => target != me,
            GameEvent::Buff { entity, .. } => entity != me,
            GameEvent::Death { victim, .. } => victim != me,
            GameEvent::Spawn { entity, .. } => entity != me,
            _ => true,
        },
    ensures
        forall|i: int|
            0 <= i < r.len() ==> #[trigger] r[i] is Blast || r[i] is Rumble,
{
}

/// What touches the local player is felt, and felt for what it was: a wound as a wound of its
/// damage from its point, even one dealt to oneself; a shove, a healing, a blast and a shake with
/// their own strength; a death as a full jolt and a dark wash; a spawn as a fresh start.
pub proof fn own_troubles_are_felt(event: GameEvent, me: EntityId, r: Seq<Reaction>)
    requires
        felt(event, me, r),
    ensures
        forall|damage: Scalar, point: [Scalar; 3]|
            #[trigger] r.contains(Reaction::Hurt { damage, point }) <==> (event matches GameEvent::Hit {
                victim,
                damage: d,
                point: p,
                ..
            } && victim == me && d == damage && p == point),
        forall|impulse: [Scalar; 3]|
            #[trigger] r.contains(Reaction::Shove { impulse }) <==> (event matches GameEvent::Knockback {
                entity,
                impulse: i,
            } && entity == me && i == impulse),
        forall|amount: Scalar|
            #[trigger] r.contains(Reaction::Healed { amount }) <==> (event matches GameEvent::Heal {
                target,
                amount: a,
            } && target == me && a == amount),
        forall|center: [Scalar; 3], radius: Scalar|
            #[trigger] r.contains(Reaction::Blast { center, radius }) <==> (event matches GameEvent::Explosion {
                center: c,
                radius: s,
            } && c == center && s == radius),
        forall|center: [Scalar; 3], trauma: Scalar|
            #[trigger] r.contains(Reaction::Rumble { center, trauma }) <==> (event matches GameEvent::Shake {
                center: c,
                trauma: t,
            } && c == center && t == trauma),
        r.contains(Reaction::Reset) <==> (event matches GameEvent::Spawn { entity, .. } && entity == me),
        event matches GameEvent::Death { victim, .. } && victim == me ==> r.contains(
            Reaction::Jolt { trauma: decimal(1, 0) },
        ) && r.len() == 2 && (r[1] matches Reaction::Wash { color, strength } && strength == decimal(
            85,
            2,
        ) && color@[0] == decimal(45, 2) && color@[1] == decimal(0, 0) && color@[2] == decimal(0, 0)),
{
    if r.len() > 0 {
        assert(r.contains(r[0]));
    }
}

/// What the local player does is felt in the hands: a shot and a landed hit kick the view upward,
/// the shot harder; a swing kicks by its kind and jolts only if it lands, the spin hardest.
pub proof fn own_deeds_are_felt(event: GameEvent, me: EntityId, r: Seq<Reaction>)
    requires
        felt(event, me, r),
    ensures
        event matches GameEvent::Shot { shooter, .. } && shooter == me ==> r == seq![
            Reaction::Kick { yaw: decimal(0, 0), pitch: decimal(2, 2) },
        ],
        event matches GameEvent::Hit { attacker, victim, .. } && attacker == me && victim != me ==> r
            == seq![Reaction::Kick { yaw: decimal(0, 0), pitch: decimal(8, 3) }],
        event matches GameEvent::Melee { attacker, victim, kind, .. } ==> attacker == me ==> {
            &&& r.len() > 0
            &&& r[0] matches Reaction::Kick { yaw, pitch } && match kind {
                MeleeKind::Slash => yaw == decimal(5, 2) && pitch == decimal(15, 3),
                MeleeKind::Thrust => yaw == decimal(0, 0) && pitch == decimal(4, 2),
                MeleeKind::Spin => yaw == decimal(9, 2) && pitch == decimal(1, 2),
            }
            &&& (r.len() > 1 <==> victim is Some)
            &&& victim is Some ==> (r[1] matches Reaction::Jolt { trauma } && trauma == if kind is Spin {
                decimal(22, 2)
            } else {
                decimal(12, 2)
            })
        },
        event matches GameEvent::Buff { entity, beneficial } ==> entity == me ==> {
            &&& r.len() == 1
            &&& r[0] matches Reaction::Wash { color, strength } && strength == decimal(22, 2) && (
            if beneficial {
                color@[0] == decimal(85, 2) && color@[1] == decimal(7, 1) && color@[2] == decimal(2, 1)
            } else {
                color@[0] == decimal(4, 1) && color@[1] == decimal(1, 1) && color@[2] == decimal(5, 1)
            })
        },
{
    if r.len() == 1 {
        assert(r =~= seq![r[0]]);
    }
}

/// Each reaction reaches its own channels and no others: shakes, jolts, wounds and shoves add to
/// the trauma; wounds, shoves and kicks to the view; only shoves to the lurch; only a wound that
/// came from some way off turns the indicator.
pub proof fn reactions_reach_their_channels<A: Fn(Scalar, Scalar) -> Scalar>(
    before: Feedback,
    reaction: Reaction,
    sensed: Sensed,
    plus: A,
    after: Feedback,
)
    requires
        feels(before, reaction, sensed, plus, after),
        !(reaction is Reset),
    ensures
        after.time == before.time,
        after.kick == before.kick,
        after.lurch == before.lurch,
        match reaction {
            Reaction::Blast { .. } | Reaction::Rumble { .. } | Reaction::Hurt { .. } | Reaction::Shove {
                ..
            } => exists|sum: Scalar| #[trigger]
                call_ensures(plus, (before.trauma, sensed.trauma), sum) && after.trauma
                    == sum.clamped(Scalar { bits: 0 }, Scalar { bits: ONE }),
            Reaction::Jolt { trauma } => exists|sum: Scalar| #[trigger]
                call_ensures(plus, (before.trauma, trauma), sum) && after.trauma == sum.clamped(
                    Scalar { bits: 0 },
                    Scalar { bits: ONE },
                ),
            _ => after.trauma == before.trauma,
        },
        match reaction {
            Reaction::Hurt { .. } | Reaction::Shove { .. } => call_ensures(
                plus,
                (before.kick_vel@[0], sensed.kick@[0]),
                after.kick_vel@[0],
            ) && call_ensures(plus, (before.kick_vel@[1], sensed.kick@[1]), after.kick_vel@[1]),
            Reaction::Kick { yaw, pitch } => call_ensures(
                plus,
                (before.kick_vel@[0], yaw),
                after.kick_vel@[0],
            ) && call_ensures(plus, (before.kick_vel@[1], pitch), after.kick_vel@[1]),
            _ => after.kick_vel == before.kick_vel,
        },
        if reaction is Shove {
            forall|i: int|
                0 <= i < 3 ==> call_ensures(
                    plus,
                    (before.lurch_vel@[i], sensed.lurch@[i]),
                    #[trigger] after.lurch_vel@[i],
                )
        } else {
            after.lurch_vel == before.lurch_vel
        },
        reaction is Hurt && decimal(1, 4).below(sensed.distance_squared) ==> (
        after.damage_dir matches Some(d) && d.0 == sensed.dir && d.1 == decimal(1, 0)),
        !(reaction is Hurt) || !decimal(1, 4).below(sensed.distance_squared) ==> after.damage_dir
            == before.damage_dir,
{
}

/// Of two flashes the brighter shows, in its own colour: red for a wound, green for a healing, orange
/// for a blast that is near, the given one for a wash. Nothing else flashes.
pub proof fn the_brighter_flash_shows<A: Fn(Scalar, Scalar) -> Scalar>(
    before: Feedback,
    reaction: Reaction,
    sensed: Sensed,
    plus: A,
    after: Feedback,
)
    requires
        feels(before, reaction, sensed, plus, after),
        !(reaction is Reset),
    ensures
        reaction is Hurt && before.flash.at_most(sensed.strength) ==> after.flash
            == sensed.strength.clamped(Scalar { bits: 0 }, Scalar { bits: ONE })
            && after.flash_color@ == seq![decimal(8, 1), decimal(5, 2), decimal(5, 2)],
        reaction is Healed && before.flash.at_most(sensed.strength) ==> after.flash
            == sensed.strength.clamped(Scalar { bits: 0 }, Scalar { bits: ONE })
            && after.flash_color@ == seq![decimal(1, 1), decimal(7, 1), decimal(25, 2)],
        reaction is Blast && decimal(6, 1).below(sensed.proximity) && before.flash.at_most(
            sensed.strength,
        ) ==> after.flash == sensed.strength.clamped(Scalar { bits: 0 }, Scalar { bits: ONE })
            && after.flash_color@ == seq![decimal(1, 0), decimal(5, 1), decimal(2, 1)],
        reaction matches Reaction::Wash { color, strength } ==> before.flash.at_most(strength)
            ==> after.flash == strength.clamped(Scalar { bits: 0 }, Scalar { bits: ONE })
            && after.flash_color@ == color@,
        reaction is Rumble || reaction is Shove || reaction is Kick || reaction is Jolt || (
        reaction is Blast && !decimal(6, 1).below(sensed.proximity)) ==> after.flash == before.flash
            && after.flash_color == before.flash_color,
{
}

/// Nothing is felt in calm: no shake, kick, lurch, flash or direction is left.
pub proof fn calm_feels_nothing(f: Feedback)
    requires
        f.calm(),
    ensures
        f.trauma.bits == 0,
        f.flash.bits == 0,
        f.damage_dir is None,
        forall|i: int| 0 <= i < 2 ==> (#[trigger] f.kick@[i]).bits == 0 && f.kick_vel@[i].bits == 0,
        forall|i: int| 0 <= i < 3 ==> (#[trigger] f.lurch@[i]).bits == 0 && f.lurch_vel@[i].bits == 0,
{
}

/// Everything that an event sets off is felt, in order, each as it was sensed.
pub proof fn reactions_are_felt_in_order<S: Fn(Reaction) -> Sensed, A: Fn(Scalar, Scalar) -> Scalar>(
    reactions: Seq<Reaction>,
    senses: Seq<Sensed>,
    sense: S,
    plus: A,
    states: Seq<Feedback>,
    k: int,
)
    requires
        feels_all(reactions, senses, sense, plus, states),
        0 <= k < reactions.len(),
    ensures
        states.len() == reactions.len() + 1,
        call_ensures(sense, (reactions[k],), senses[k]),
        feels(states[k], reactions[k], senses[k], plus, states[k + 1]),
{
    assert(call_ensures(sense, (reactions[k],), senses[k]));
}

/// Trauma adds up and stays between none and full; nothing else is touched.
pub proof fn trauma_adds_up<A: Fn(Scalar, Scalar) -> Scalar>(f: &mut Feedback, amount: Scalar, plus: &A)
    requires
        call_ensures(Feedback::add_trauma::<A>, (f, amount, plus), ()),
    ensures
        exists|sum: Scalar|
            {
                &&& #[trigger] call_ensures(*plus, (old(f).trauma, amount), sum)
                &&& (Scalar { bits: 0 }).at_most(sum) && sum.at_most(Scalar { bits: 0x3f80_0000 }) ==> final(f).trauma == sum
                &&& (Scalar { bits: 0x3f80_0000 }).below(sum) ==> final(f).trauma.bits == 0x3f80_0000
                &&& sum.below(Scalar { bits: 0 }) ==> final(f).trauma.bits == 0
            },
        final(f).flash == old(f).flash && final(f).kick == old(f).kick,
        final(f).damage_dir == old(f).damage_dir,
{
}

/// Of two flashes, one after the other, the brighter shows at the end.
pub proof fn the_brighter_of_two_flashes_stays(
    first: &mut Feedback,
    color: [Scalar; 3],
    strength: Scalar,
    second: &mut Feedback,
    other: [Scalar; 3],
    fainter: Scalar,
    shown: (Scalar, [Scalar; 3]),
)
    requires
        old(first).flash.bits == 0,
        call_ensures(Feedback::add_flash, (first, color, strength), ()),
        *old(second) == *final(first),
        call_ensures(Feedback::add_flash, (second, other, fainter), ()),
        call_ensures(Feedback::flash, (final(second),), shown),
        (Scalar { bits: 0 }).at_most(strength) && strength.at_most(Scalar { bits: 0x3f80_0000 }),
        (Scalar { bits: 0 }).at_most(fainter) && fainter.at_most(Scalar { bits: 0x3f80_0000 }),
    ensures
        fainter.below(strength) ==> shown == (strength, color),
        strength.at_most(fainter) ==> shown == (fainter, other),
{
}

/// Where a wound came from is remembered until its time is up, unless it came from too close to tell.
pub proof fn wounds_are_remembered_for_a_time(
    hurt: &mut Feedback,
    dir: [Scalar; 2],
    distance_squared: Scalar,
    later: &mut Feedback,
    decay: Decay,
    seen: Option<[Scalar; 2]>,
)
    requires
        old(hurt).damage_dir is None,
        call_ensures(Feedback::remember_damage_dir, (hurt, dir, distance_squared), ()),
        *old(later) == *final(hurt),
        call_ensures(Feedback::update, (later, decay), ()),
        call_ensures(Feedback::damage_from, (final(later),), seen),
    ensures
        decimal(1, 4).below(distance_squared) ==> final(hurt).damage_dir == Some((dir, decimal(1, 0))),
        decimal(1, 4).below(distance_squared) && (Scalar { bits: 0 }).below(decay.damage_ttl) ==> seen
            == Some(dir),
        decay.damage_ttl.at_most(Scalar { bits: 0 }) ==> seen is None,
        !decimal(1, 4).below(distance_squared) ==> seen is None,
{
}

/// Each frame the channels take on what has decayed, and trauma and flash stop at zero.
pub proof fn feelings_fade_to_nothing(f: &mut Feedback, decay: Decay)
    requires
        call_ensures(Feedback::update, (f, decay), ()),
    ensures
        (Scalar { bits: 0 }).at_most(decay.trauma) ==> final(f).trauma == decay.trauma,
        decay.trauma.below(Scalar { bits: 0 }) ==> final(f).trauma.bits == 0,
        (Scalar { bits: 0 }).at_most(decay.flash) ==> final(f).flash == decay.flash,
        decay.flash.below(Scalar { bits: 0 }) ==> final(f).flash.bits == 0,
        final(f).time == decay.time,
        final(f).kick == decay.kick && final(f).kick_vel == decay.kick_vel,
        final(f).lurch == decay.lurch && final(f).lurch_vel == decay.lurch_vel,
        final(f).flash_color == old(f).flash_color,
{
}

/// Kicks and lurches push their springs, each along its own axis.
pub proof fn pushes_go_along_their_axes<A: Fn(Scalar, Scalar) -> Scalar>(
    kicked: &mut Feedback,
    yaw: Scalar,
    pitch: Scalar,
    lurched: &mut Feedback,
    impulse: [Scalar; 3],
    plus: &A,
)
    requires
        call_ensures(Feedback::add_kick::<A>, (kicked, yaw, pitch, plus), ()),
        call_ensures(Feedback::add_lurch::<A>, (lurched, impulse, plus), ()),
    ensures
        call_ensures(*plus, (old(kicked).kick_vel@[0], yaw), final(kicked).kick_vel@[0]),
        call_ensures(*plus, (old(kicked).kick_vel@[1], pitch), final(kicked).kick_vel@[1]),
        call_ensures(*plus, (old(lurched).lurch_vel@[0], impulse@[0]), final(lurched).lurch_vel@[0]),
        call_ensures(*plus, (old(lurched).lurch_vel@[1], impulse@[1]), final(lurched).lurch_vel@[1]),
        call_ensures(*plus, (old(lurched).lurch_vel@[2], impulse@[2]), final(lurched).lurch_vel@[2]),
        final(kicked).kick == old(kicked).kick,
        final(lurched).lurch == old(lurched).lurch,
{
    assert forall|i: int| 0 <= i < 3 implies call_ensures(
        *plus,
        (old(lurched).lurch_vel@[i], impulse@[i]),
        #[trigger] final(lurched).lurch_vel@[i],
    ) by {}
}

/// Shares are held to what each is for: nearness between none and full and none beyond a range, a hit's
/// severity at a tenth at least, a shove's trauma at a half at most, a healing's wash between a twentieth
/// and three tenths.
pub proof fn shares_are_held_to_their_limits(
    range: Scalar,
    share: Scalar,
    near: Scalar,
    severe: Scalar,
    shove: Scalar,
    mend: Scalar,
)
    requires
        call_ensures(proximity, (range, share), near),
        call_ensures(severity, (share,), severe),
        call_ensures(shove_trauma, (share,), shove),
        call_ensures(mending_strength, (share,), mend),
        !share.nan(),
    ensures
        range.at_most(Scalar { bits: 0 }) ==> near.bits == 0,
        !range.at_most(Scalar { bits: 0 }) && (Scalar { bits: 0 }).at_most(share) && share.at_most(
            Scalar { bits: 0x3f80_0000 },
        ) ==> near == share,
        share.below(decimal(1, 1)) ==> severe == decimal(1, 1),
        decimal(1, 1).at_most(share) && share.at_most(Scalar { bits: 0x3f80_0000 }) ==> severe == share,
        !share.below(decimal(1, 1)) && (Scalar { bits: 0x3f80_0000 }).below(share) ==> severe.bits
            == 0x3f80_0000,
        share.below(Scalar { bits: 0 }) ==> shove.bits == 0,
        (Scalar { bits: 0 }).at_most(share) && share.at_most(decimal(5, 1)) ==> shove == share,
        !share.below(Scalar { bits: 0 }) && decimal(5, 1).below(share) ==> shove == decimal(5, 1),
        share.below(decimal(5, 2)) ==> mend == decimal(5, 2),
        decimal(5, 2).at_most(share) && share.at_most(decimal(3, 1)) ==> mend == share,
        !share.below(decimal(5, 2)) && decimal(3, 1).below(share) ==> mend == decimal(3, 1),
{
}

} // verus!
