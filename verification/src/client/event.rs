//! What the authoritative simulation reports to a client.

use crate::scalar::Scalar;
use vstd::prelude::*;

verus! {

/// A body in a zone.
pub type EntityId = u32;

/// How a melee swing goes.
#[derive(Debug, Clone, Copy, PartialEq, Eq, Structural)]
pub enum MeleeKind {
    Slash,
    Thrust,
    Spin,
}

/// Something that happened in the world this tick.
#[derive(Debug, Clone, PartialEq, Eq)]
pub enum GameEvent {
    /// A cast left a staff.
    Shot { shooter: EntityId, origin: [Scalar; 3], dir: [Scalar; 3] },
    /// A hit was confirmed.
    Hit {
        attacker: EntityId,
        victim: EntityId,
        damage: Scalar,
        headshot: bool,
        point: [Scalar; 3],
    },
    /// Something detonated.
    Explosion { center: [Scalar; 3], radius: Scalar },
    /// An authored shake hint.
    Shake { center: [Scalar; 3], trauma: Scalar },
    /// A force shoved a body.
    Knockback { entity: EntityId, impulse: [Scalar; 3] },
    /// A melee swing, whether or not it connected.
    Melee {
        attacker: EntityId,
        victim: Option<EntityId>,
        origin: [Scalar; 3],
        dir: [Scalar; 3],
        kind: MeleeKind,
    },
    /// A restorative tick.
    Heal { target: EntityId, amount: Scalar },
    /// A status landed.
    Buff { entity: EntityId, beneficial: bool },
    /// A body died.
    Death { victim: EntityId, weapon: u8, victim_node: String, killer_node: String },
    /// A body (re)appeared.
    Spawn { entity: EntityId, pos: [Scalar; 3] },
    /// Anything that the client does not react to.
    Unhandled,
}

} // verus!
