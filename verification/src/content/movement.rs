//! Movement / parkour modes — the kinetic half of the game feel.
//!
//! Cerena is first-person and movement-forward: dashing, wall-running, grappling,
//! gliding, blinking. Each mode is pure data here; the simulation
//! (the simulation) is the fixed interpreter that reads a [`MovementKind`] and
//! applies the corresponding kinematics. Adding tunable parkour is therefore a
//! hot-reload, and items / tech grant modes by [`MovementModeId`].

use crate::content::ids::MovementModeId;
use crate::scalar::Scalar;
use vstd::prelude::*;

verus! {

/// The kind of movement and its tuning parameters. the simulation matches on
/// this to drive the character controller; the variants are the closed set of
/// kinematic primitives the engine understands.
#[derive(Debug, Clone)]
pub enum MovementKind {
    /// Burst horizontally `distance` metres at `speed`.
    Dash { distance: Scalar, speed: Scalar },
    /// Grant `extra_jumps` mid-air jumps, each with vertical `impulse`.
    DoubleJump { extra_jumps: u8, impulse: Scalar },
    /// Run along walls for up to `max_time_s`, at `speed`, with reduced gravity.
    WallRun {
        max_time_s: Scalar,
        speed: Scalar,
        gravity_mult: Scalar,
    },
    /// Fire a grapple up to `range`; reel the player in at `pull_speed`.
    Grapple { range: Scalar, pull_speed: Scalar },
    /// Glide: scale fall speed by `fall_mult` (<1 = slow fall) with `forward_boost`.
    Glide { fall_mult: Scalar, forward_boost: Scalar },
    /// Short instantaneous teleport of `distance` along aim.
    Blink { distance: Scalar },
    /// Climb sheer surfaces at `speed`.
    Climb { speed: Scalar },
    /// Slam down: deal `damage` in `radius` on landing, descending at `down_speed`.
    GroundSlam {
        damage: Scalar,
        radius: Scalar,
        down_speed: Scalar,
    },
    /// Slide along the ground at `speed` for `duration_s` (low profile, momentum).
    Slide { speed: Scalar, duration_s: Scalar },
    /// Sustained sprint multiplying base move speed by `speed_mult`.
    Sprint { speed_mult: Scalar },
    /// Free 3D flight while the fly intent is held: move toward the full view ray at
    /// `speed` (reached with `accel`), with jump/crouch overriding vertical at
    /// `ascend_speed`. Gravity is suppressed. A continuous mode (shapes `MoveParams`),
    /// draining stamina/mana as upkeep.
    Fly {
        speed: Scalar,
        accel: Scalar,
        ascend_speed: Scalar,
    },
    /// Convert and amplify existing momentum: scale current horizontal velocity by
    /// `boost_mult` and add a flat `impulse` burst along the aim, but only when
    /// already moving faster than `min_speed` (so it rewards flow — chaining off a
    /// slide, wall-run, or grapple — rather than starting from a standstill).
    MomentumBoost {
        boost_mult: Scalar,
        min_speed: Scalar,
        impulse: Scalar,
    },
}

/// A movement mode definition: a kinematic primitive plus its resource costs. The
/// sim charges mana/stamina and enforces the cooldown when the mode activates.
#[derive(Debug, Clone)]
pub struct MovementModeDef {
    pub id: MovementModeId,
    pub name: String,
    /// The kinematic behaviour (interpreted by the simulation).
    pub kind: MovementKind,
    /// Mana spent to activate.
    pub mana_cost: Scalar,
    /// Seconds before it can be used again.
    pub cooldown: Scalar,
    /// Stamina spent to activate.
    pub stamina_cost: Scalar,
}

} // verus!
