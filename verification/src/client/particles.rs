//! CPU particle system for spell VFX — organic, additive, glowy.
//!
//! The authoritative sim emits discrete [`GameEvent`]s (a shot left a muzzle, a bolt hit a
//! body, a fireball detonated); this module turns those events into bursts of particles and
//! keeps the buffer of live ones. How a particle moves is handed in by the caller.

use crate::client::event::GameEvent;
use crate::scalar::{dec, decimal, one, zero, Scalar, ONE};
use vstd::prelude::*;

verus! {

/// Hard cap on live particles, so a frantic teamfight cannot unbound the buffer.
pub const MAX_PARTICLES: usize = 8192;

/// One live particle.
#[derive(Debug, Clone, Copy, PartialEq, Eq)]
pub struct Particle {
    pub pos: [Scalar; 3],
    pub vel: [Scalar; 3],
    /// Linear RGB; alpha is derived from remaining life for a clean fade-out.
    pub color: [Scalar; 3],
    /// World-space radius in metres.
    pub size: Scalar,
    /// Remaining life, seconds. Dead at <= 0.
    pub life: Scalar,
    /// Total life it spawned with, for normalised fade curves.
    pub max_life: Scalar,
    /// Constant downward acceleration (embers fall, sparks arc). 0 = drifting motes.
    pub gravity: Scalar,
}

impl Particle {
    /// Current alpha for additive blending: fades linearly with remaining life; `over`
    /// divides.
    pub fn alpha<D: Fn(Scalar, Scalar) -> Scalar>(&self, over: &D) -> (r: Scalar)
        requires
            forall|x: Scalar, y: Scalar| call_requires(*over, (x, y)),
        ensures
            exists|share: Scalar| #[trigger]
                call_ensures(*over, (self.life, self.max_life.floored(decimal(1, 3))), share) && r
                    == share.clamped(Scalar { bits: 0 }, Scalar { bits: ONE }),
    {
        over(self.life, self.max_life.max(dec(1, 3))).clamp(zero(), one())
    }
}

/// The shape that a burst spreads in.
#[derive(Debug, Clone, Copy, PartialEq, Eq)]
pub enum Spread {
    /// About this direction, from the burst's origin.
    Cone { dir: [Scalar; 3] },
    /// About this direction, from one step along it ahead of the burst's origin.
    ConeAhead { dir: [Scalar; 3] },
    /// In all directions.
    Sphere,
}

/// A burst of particles.
#[derive(Debug, Clone, Copy, PartialEq, Eq)]
pub struct Burst {
    pub origin: [Scalar; 3],
    pub spread: Spread,
    pub count: usize,
    pub speed: Scalar,
    pub color: [Scalar; 3],
    pub size: Scalar,
    pub life: Scalar,
    pub gravity: Scalar,
}

/// Where a burst starts, how it spreads and how many particles it has.
pub open spec fn is_burst(
    b: Burst,
    origin: [Scalar; 3],
    spread: Spread,
    count: int,
    gravity: Scalar,
) -> bool {
    b.origin == origin && b.spread == spread && b.count == count && b.gravity == gravity
}

/// How fast a burst flies, and its colour, size and life.
pub open spec fn glows(b: Burst, speed: Scalar, color: Seq<Scalar>, size: Scalar, life: Scalar) -> bool {
    b.speed == speed && b.color@ == color && b.size == size && b.life == life
}

/// The burst of an event. The detonation's particle count and speed are those of `blast`.
pub open spec fn shows(event: GameEvent, blast: (usize, Scalar), r: Option<Burst>) -> bool {
    match event {
        GameEvent::Shot { origin, dir, .. } => match r {
            Some(b) => is_burst(b, origin, Spread::Cone { dir }, 16, decimal(1, 0)) && glows(
                b,
                decimal(6, 0),
                seq![decimal(1, 0), decimal(85, 2), decimal(4, 1)],
                decimal(5, 2),
                decimal(35, 2),
            ),
            None => false,
        },
        GameEvent::Hit { point, headshot, .. } => match r {
            Some(b) => is_burst(b, point, Spread::Sphere, 24, decimal(2, 0)) && glows(
                b,
                decimal(4, 0),
                if headshot {
                    seq![decimal(1, 0), decimal(3, 1), decimal(3, 1)]
                } else {
                    seq![decimal(1, 0), decimal(7, 1), decimal(5, 1)]
                },
                decimal(4, 2),
                decimal(4, 1),
            ),
            None => false,
        },
        GameEvent::Explosion { center, .. } => match r {
            Some(b) => is_burst(b, center, Spread::Sphere, blast.0 as int, decimal(2, 0)) && glows(
                b,
                blast.1,
                seq![decimal(1, 0), decimal(55, 2), decimal(2, 1)],
                decimal(12, 2),
                decimal(7, 1),
            ),
            None => false,
        },
        GameEvent::Spawn { pos, .. } => match r {
            Some(b) => b.spread is Cone && b.spread->Cone_dir@ == seq![
                Scalar { bits: 0 },
                Scalar { bits: ONE },
                Scalar { bits: 0 },
            ] && is_burst(b, pos, b.spread, 20, decimal(1, 0)) && glows(
                b,
                decimal(2, 0),
                seq![decimal(5, 1), decimal(8, 1), decimal(1, 0)],
                decimal(8, 2),
                decimal(6, 1),
            ),
            None => false,
        },
        GameEvent::Melee { origin, dir, victim, .. } => match r {
            Some(b) => is_burst(
                b,
                origin,
                Spread::ConeAhead { dir },
                if victim is Some {
                    22
                } else {
                    12
                },
                decimal(1, 0),
            ) && glows(
                b,
                decimal(9, 0),
                if victim is Some {
                    seq![decimal(1, 0), decimal(85, 2), decimal(6, 1)]
                } else {
                    seq![decimal(85, 2), decimal(9, 1), decimal(1, 0)]
                },
                decimal(4, 2),
                decimal(18, 2),
            ),
            None => false,
        },
        _ => r is None,
    }
}

/// Map a [`GameEvent`] to a particle burst: each event kind seeds a characteristic spawn.
/// A cast leaving the staff is a tight cone of bright motes, a confirmed hit a small radial
/// spray, a detonation a dense expanding shell (`blast`: its count and speed, scaled to the
/// radius), a (re)spawn a gentle upward bloom, a melee swing a thin arc of sparks. Events
/// without a world position show nothing here.
pub fn burst_for(event: &GameEvent, blast: (usize, Scalar)) -> (r: Option<Burst>)
    ensures
        shows(*event, blast, r),
{
    match event {
        GameEvent::Shot { origin, dir, .. } => Some(
            Burst {
                origin: *origin,
                spread: Spread::Cone { dir: *dir },
                count: 16,
                speed: dec(6, 0),
                color: [dec(1, 0), dec(85, 2), dec(4, 1)],
                size: dec(5, 2),
                life: dec(35, 2),
                gravity: dec(1, 0),
            },
        ),
        GameEvent::Hit { point, headshot, .. } => Some(
            Burst {
                origin: *point,
                spread: Spread::Sphere,
                count: 24,
                speed: dec(4, 0),
                color: if *headshot {
                    [dec(1, 0), dec(3, 1), dec(3, 1)]
                } else {
                    [dec(1, 0), dec(7, 1), dec(5, 1)]
                },
                size: dec(4, 2),
                life: dec(4, 1),
                gravity: dec(2, 0),
            },
        ),
        GameEvent::Explosion { center, .. } => Some(
            Burst {
                origin: *center,
                spread: Spread::Sphere,
                count: blast.0,
                speed: blast.1,
                color: [dec(1, 0), dec(55, 2), dec(2, 1)],
                size: dec(12, 2),
                life: dec(7, 1),
                gravity: dec(2, 0),
            },
        ),
        GameEvent::Spawn { pos, .. } => Some(
            Burst {
                origin: *pos,
                spread: Spread::Cone { dir: [zero(), one(), zero()] },
                count: 20,
                speed: dec(2, 0),
                color: [dec(5, 1), dec(8, 1), dec(1, 0)],
                size: dec(8, 2),
                life: dec(6, 1),
                gravity: dec(1, 0),
            },
        ),
        GameEvent::Melee { origin, dir, victim, .. } => {
            let connected: bool = victim.is_some();
            Some(
                Burst {
                    origin: *origin,
                    spread: Spread::ConeAhead { dir: *dir },
                    count: if connected {
                        22
                    } else {
                        12
                    },
                    speed: dec(9, 0),
                    color: if connected {
                        [dec(1, 0), dec(85, 2), dec(6, 1)]
                    } else {
                        [dec(85, 2), dec(9, 1), dec(1, 0)]
                    },
                    size: dec(4, 2),
                    life: dec(18, 2),
                    gravity: dec(1, 0),
                },
            )
        },
        _ => None,
    }
}

/// The live particle buffer.
#[derive(Debug, Clone)]
pub struct ParticleSystem {
    pub particles: Vec<Particle>,
}

/// The particles with life left, in order.
pub open spec fn alive(particles: Seq<Particle>) -> Seq<Particle>
    decreases particles.len(),
{
    if particles.len() == 0 {
        seq![]
    } else {
        let rest = alive(particles.drop_last());
        if (Scalar { bits: 0 }).below(particles.last().life) {
            rest.push(particles.last())
        } else {
            rest
        }
    }
}

proof fn alive_is_no_longer(particles: Seq<Particle>)
    ensures
        alive(particles).len() <= particles.len(),
    decreases particles.len(),
{
    if particles.len() > 0 {
        alive_is_no_longer(particles.drop_last());
    }
}

/// Each particle is what `step` makes of it.
pub open spec fn stepped<F: Fn(Particle) -> Particle>(before: Seq<Particle>, step: F, after: Seq<Particle>) -> bool {
    &&& after.len() == before.len()
    &&& forall|i: int| 0 <= i < before.len() ==> call_ensures(step, (before[i],), #[trigger] after[i])
}

impl Default for ParticleSystem {
    fn default() -> (r: Self)
        ensures
            r.particles@.len() == 0,
    {
        ParticleSystem { particles: Vec::new() }
    }
}

impl ParticleSystem {
    /// The buffer keeps to its cap.
    pub open spec fn well_formed(self) -> bool {
        self.particles@.len() <= MAX_PARTICLES
    }

    pub fn new() -> (r: Self)
        ensures
            r.particles@.len() == 0,
            r.well_formed(),
    {
        ParticleSystem::default()
    }

    /// Live particle count (HUD/diagnostics).
    pub fn len(&self) -> (r: usize)
        ensures
            r == self.particles@.len(),
    {
        self.particles.len()
    }

    pub fn is_empty(&self) -> (r: bool)
        ensures
            r == (self.particles@.len() == 0),
    {
        self.particles.len() == 0
    }

    /// Advance every particle with `step` and reap the dead ones.
    pub fn update<F: Fn(Particle) -> Particle>(&mut self, step: &F)
        requires
            forall|p: Particle| call_requires(*step, (p,)),
        ensures
            exists|after: Seq<Particle>| #[trigger]
                stepped(old(self).particles@, *step, after) && final(self).particles@ == alive(after),
            old(self).well_formed() ==> final(self).well_formed(),
    {
        let ghost was = self.particles@;
        let ghost mut after: Seq<Particle> = seq![];
        let mut kept: Vec<Particle> = Vec::new();
        let mut i: usize = 0;
        while i < self.particles.len()
            invariant
                i <= self.particles.len(),
                self.particles@ == was,
                forall|p: Particle| call_requires(*step, (p,)),
                stepped(was.take(i as int), *step, after),
                kept@ == alive(after),
            decreases self.particles.len() - i,
        {
            let p = step(self.particles[i]);
            proof {
                let longer = after.push(p);
                assert(longer.drop_last() =~= after);
                after = longer;
            }
            if zero().lt(p.life) {
                kept.push(p);
            }
            i = i + 1;
        }
        proof {
            assert(was.take(was.len() as int) =~= was);
            alive_is_no_longer(after);
        }
        self.particles = kept;
    }

    /// How many particles of a burst still fit.
    pub open spec fn room(self, count: nat) -> nat {
        if self.particles@.len() >= MAX_PARTICLES {
            0
        } else if self.particles@.len() + count <= MAX_PARTICLES {
            count
        } else {
            (MAX_PARTICLES - self.particles@.len()) as nat
        }
    }

    /// The buffer `after` a burst at `at`: what was there, then as many new particles as
    /// fit, each with the burst's looks and its own velocity.
    pub open spec fn emitted<V: Fn(Burst, u32) -> [Scalar; 3]>(
        self,
        burst: Burst,
        at: [Scalar; 3],
        velocity: V,
        after: Seq<Particle>,
    ) -> bool {
        &&& after.len() == self.particles@.len() + self.room(burst.count as nat)
        &&& forall|i: int| 0 <= i < self.particles@.len() ==> #[trigger] after[i] == self.particles@[i]
        &&& forall|i: int|
            0 <= i < self.room(burst.count as nat) ==> {
                let p = #[trigger] after[self.particles@.len() + i];
                &&& p.pos == at
                &&& call_ensures(velocity, (burst, i as u32), p.vel)
                &&& p.color == burst.color
                &&& p.size == burst.size
                &&& p.life == burst.life
                &&& p.max_life == burst.life
                &&& p.gravity == burst.gravity
            }
    }

    /// Spawn the particles of a burst at `at`, as many as fit; `velocity` gives each its
    /// own, by number.
    pub fn emit<V: Fn(Burst, u32) -> [Scalar; 3]>(&mut self, burst: Burst, at: [Scalar; 3], velocity: &V)
        requires
            forall|b: Burst, i: u32| call_requires(*velocity, (b, i)),
        ensures
            old(self).emitted(burst, at, *velocity, final(self).particles@),
            old(self).well_formed() ==> final(self).well_formed(),
    {
        let ghost was = self.particles@;
        let mut i: usize = 0;
        while i < burst.count && self.particles.len() < MAX_PARTICLES
            invariant
                i <= burst.count,
                self.particles@.len() == was.len() + i,
                i > 0 ==> self.particles@.len() <= MAX_PARTICLES,
                forall|b: Burst, i: u32| call_requires(*velocity, (b, i)),
                forall|k: int| 0 <= k < was.len() ==> #[trigger] self.particles@[k] == was[k],
                forall|k: int|
                    0 <= k < i ==> {
                        let p = #[trigger] self.particles@[was.len() + k];
                        &&& p.pos == at
                        &&& call_ensures(*velocity, (burst, k as u32), p.vel)
                        &&& p.color == burst.color
                        &&& p.size == burst.size
                        &&& p.life == burst.life
                        &&& p.max_life == burst.life
                        &&& p.gravity == burst.gravity
                    },
            decreases burst.count - i,
        {
            let vel = velocity(burst, i as u32);
            self.particles.push(
                Particle {
                    pos: at,
                    vel,
                    color: burst.color,
                    size: burst.size,
                    life: burst.life,
                    max_life: burst.life,
                    gravity: burst.gravity,
                },
            );
            i = i + 1;
        }
    }

    /// Show an event: spawn its burst, if it has one, at the place that `place` gives it.
    /// `blast` is the particle count and speed of a detonation of the event's radius.
    pub fn spawn_from_event<P: Fn(Burst) -> [Scalar; 3], V: Fn(Burst, u32) -> [Scalar; 3]>(
        &mut self,
        event: &GameEvent,
        blast: (usize, Scalar),
        place: &P,
        velocity: &V,
    )
        requires
            forall|b: Burst| call_requires(*place, (b,)),
            forall|b: Burst, i: u32| call_requires(*velocity, (b, i)),
        ensures
            exists|shown: Option<Burst>| #[trigger]
                shows(*event, blast, shown) && match shown {
                    Some(b) => exists|at: [Scalar; 3]| #[trigger]
                        call_ensures(*place, (b,), at) && old(self).emitted(
                            b,
                            at,
                            *velocity,
                            final(self).particles@,
                        ),
                    None => final(self).particles@ == old(self).particles@,
                },
            old(self).well_formed() ==> final(self).well_formed(),
    {
        let shown = burst_for(event, blast);
        assert(shows(*event, blast, shown));
        match shown {
            Some(b) => {
                let at = place(b);
                assert(call_ensures(*place, (b,), at));
                self.emit(b, at, velocity);
            },
            None => {},
        }
    }

    /// Read-only view of live particles.
    pub fn particles(&self) -> (r: &[Particle])
        ensures
            r@ == self.particles@,
    {
        self.particles.as_slice()
    }
}

/// The bits of `x` turned left by `n` places.
pub open spec fn turned(x: u32, n: u32) -> u32 {
    (x << n) | (x >> ((32 - n) as u32))
}

/// A small integer hash: a well-mixed number for each input.
pub open spec fn scrambled(x: u32) -> u32 {
    let a = (x ^ (x >> 16u32)).wrapping_mul(0x7feb_352d);
    let b = (a ^ (a >> 15u32)).wrapping_mul(0x846c_a68b);
    b ^ (b >> 16u32)
}

fn scramble(x: u32) -> (r: u32)
    ensures
        r == scrambled(x),
{
    let a: u32 = (x ^ (x >> 16u32)).wrapping_mul(0x7feb_352d);
    let b: u32 = (a ^ (a >> 15u32)).wrapping_mul(0x846c_a68b);
    b ^ (b >> 16u32)
}

/// The number that a seed point is hashed from.
pub open spec fn seed_bits(seed: [Scalar; 3]) -> u32 {
    seed@[0].bits ^ turned(seed@[1].bits, 11) ^ turned(seed@[2].bits, 21)
}

/// Three well-mixed numbers from a seed point and an index: the raw material of cosmetic
/// jitter. Hash-based, so it needs no generator state and is reproducible per event.
pub fn jitter_bits(seed: [Scalar; 3], i: u32) -> (r: [u32; 3])
    ensures
        r@ == seq![
            scrambled(seed_bits(seed) ^ i.wrapping_mul(2654435761)),
            scrambled(seed_bits(seed) ^ i.wrapping_mul(40503)),
            scrambled(seed_bits(seed) ^ i.wrapping_mul(73856093)),
        ],
{
    let y: u32 = seed[1].bits;
    let z: u32 = seed[2].bits;
    let base: u32 = seed[0].bits ^ ((y << 11u32) | (y >> 21u32)) ^ ((z << 21u32) | (z >> 11u32));
    [
        scramble(base ^ i.wrapping_mul(2654435761)),
        scramble(base ^ i.wrapping_mul(40503)),
        scramble(base ^ i.wrapping_mul(73856093)),
    ]
}

/// What is drawn is what lives: after a step exactly the particles with life left stay, in their
/// order.
pub proof fn particles_stay_while_they_live(particles: Seq<Particle>)
    ensures
        alive(particles) == particles.filter(|p: Particle| (Scalar { bits: 0 }).below(p.life)),
    decreases particles.len(),
{
    reveal(Seq::filter);
    if particles.len() > 0 {
        particles_stay_while_they_live(particles.drop_last());
    }
}

/// Every particle is stepped once.
pub proof fn every_particle_is_stepped<F: Fn(Particle) -> Particle>(
    before: Seq<Particle>,
    step: F,
    after: Seq<Particle>,
    i: int,
)
    requires
        stepped(before, step, after),
        0 <= i < before.len(),
    ensures
        after.len() == before.len(),
        call_ensures(step, (before[i],), after[i]),
{
    assert(call_ensures(step, (before[i],), after[i]));
}

/// A burst adds its particles as far as they fit, and takes none away: those that were there stay
/// as they are, the new ones start at its place in its look with their whole life before them, and
/// all of them come if there is room.
pub proof fn a_burst_adds_what_fits<V: Fn(Burst, u32) -> [Scalar; 3]>(
    system: ParticleSystem,
    burst: Burst,
    at: [Scalar; 3],
    velocity: V,
    after: Seq<Particle>,
)
    requires
        system.particles@.len() <= MAX_PARTICLES,
        system.emitted(burst, at, velocity, after),
    ensures
        after.len() <= MAX_PARTICLES,
        after.len() == system.particles@.len() + burst.count || after.len() == MAX_PARTICLES,
        after.len() <= system.particles@.len() + burst.count,
        system.particles@.len() <= after.len(),
        forall|i: int| 0 <= i < system.particles@.len() ==> #[trigger] after[i] == system.particles@[i],
        forall|i: int|
            system.particles@.len() <= i < after.len() ==> {
                &&& (#[trigger] after[i]).pos == at
                &&& after[i].color == burst.color
                &&& after[i].size == burst.size
                &&& after[i].life == burst.life
                &&& after[i].max_life == burst.life
                &&& after[i].gravity == burst.gravity
                &&& call_ensures(velocity, (burst, (i - system.particles@.len()) as u32), after[i].vel)
            },
{
    assert forall|i: int| system.particles@.len() <= i < after.len() implies {
        &&& (#[trigger] after[i]).pos == at
        &&& after[i].color == burst.color
        &&& after[i].size == burst.size
        &&& after[i].life == burst.life
        &&& after[i].max_life == burst.life
        &&& after[i].gravity == burst.gravity
        &&& call_ensures(velocity, (burst, (i - system.particles@.len()) as u32), after[i].vel)
    } by {
        let k = i - system.particles@.len();
        assert(after[system.particles@.len() + k].pos == at);
    }
}

/// Bursts come where things happen: a muzzle flashes forward from the shot's origin, a hit sprays
/// from its point, a blast from its centre as large as it is, a spawn rises from its place, a swing
/// fans out ahead and fuller if it lands. Nothing else shows.
pub proof fn bursts_come_where_things_happen(event: GameEvent, blast: (usize, Scalar), r: Option<Burst>)
    requires
        shows(event, blast, r),
    ensures
        match event {
            GameEvent::Shot { origin, dir, .. } => r matches Some(b) && b.origin == origin && b.spread
                == (Spread::Cone { dir }) && b.count == 16 && b.gravity == decimal(1, 0) && b.speed
                == decimal(6, 0) && b.life == decimal(35, 2) && b.size == decimal(5, 2),
            GameEvent::Hit { point, headshot, .. } => r matches Some(b) && b.origin == point && b.spread
                == Spread::Sphere && b.count == 24 && b.gravity == decimal(2, 0) && b.speed == decimal(
                4,
                0,
            ) && b.life == decimal(4, 1) && b.size == decimal(4, 2) && b.color@ == if headshot {
                seq![decimal(1, 0), decimal(3, 1), decimal(3, 1)]
            } else {
                seq![decimal(1, 0), decimal(7, 1), decimal(5, 1)]
            },
            GameEvent::Explosion { center, .. } => r matches Some(b) && b.origin == center && b.spread
                == Spread::Sphere && b.count == blast.0 && b.speed == blast.1 && b.gravity == decimal(
                2,
                0,
            ) && b.life == decimal(7, 1) && b.size == decimal(12, 2),
            GameEvent::Spawn { pos, .. } => r matches Some(b) && b.origin == pos && (
            b.spread matches Spread::Cone { dir } && dir@[0].bits == 0 && dir@[1].bits == ONE
                && dir@[2].bits == 0) && b.count == 20 && b.gravity == decimal(1, 0) && b.speed
                == decimal(2, 0) && b.life == decimal(6, 1) && b.size == decimal(8, 2),
            GameEvent::Melee { origin, dir, victim, .. } => r matches Some(b) && b.origin == origin
                && b.spread == (Spread::ConeAhead { dir }) && b.count == if victim is Some {
                22int
            } else {
                12
            } && b.gravity == decimal(1, 0) && b.speed == decimal(9, 0) && b.life == decimal(18, 2)
                && b.size == decimal(4, 2),
            _ => r is None,
        },
{
}

/// Turning the bits loses none: turned on by the rest of the word, they are as they were.
pub proof fn turning_loses_nothing(x: u32)
    ensures
        turned(turned(x, 11), 21) == x,
        turned(turned(x, 21), 11) == x,
{
    assert(((((x << 11u32) | (x >> 21u32)) << 21u32) | (((x << 11u32) | (x >> 21u32)) >> 11u32)) == x)
        by (bit_vector);
    assert(((((x << 21u32) | (x >> 11u32)) << 11u32) | (((x << 21u32) | (x >> 11u32)) >> 21u32)) == x)
        by (bit_vector);
}

/// Jitter is hashed from all three coordinates of the seed point and the index, each number with a
/// factor of its own.
pub proof fn jitter_is_hashed(seed: [Scalar; 3], i: u32, r: [u32; 3])
    requires
        call_ensures(jitter_bits, (seed, i), r),
    ensures
        ({
            let (x, y, z) = (seed@[0].bits, seed@[1].bits, seed@[2].bits);
            let base = x ^ ((y << 11u32) | (y >> 21u32)) ^ ((z << 21u32) | (z >> 11u32));
            let modulus: int = 0x1_0000_0000;
            forall|k: int|
                0 <= k < 3 ==> {
                    let factor: int = if k == 0 {
                        2654435761
                    } else if k == 1 {
                        40503
                    } else {
                        73856093
                    };
                    let n = base ^ (((i * factor) % modulus) as u32);
                    let a = (((n ^ (n >> 16u32)) * 0x7feb_352d) % modulus) as u32;
                    let b = (((a ^ (a >> 15u32)) * 0x846c_a68b) % modulus) as u32;
                    #[trigger] r@[k] == b ^ (b >> 16u32)
                }
        }),
{
    let y = seed@[1].bits;
    let z = seed@[2].bits;
    assert(turned(y, 11) == (y << 11u32) | (y >> 21u32));
    assert(turned(z, 21) == (z << 21u32) | (z >> 11u32));
}

} // verus!
