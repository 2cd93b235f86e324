//! Global balance tuning — every gameplay magic-number, as hot-reloadable data.
//!
//! The single most important rule for a "tweak gameplay while 10,000 people play"
//! game is: **no balance constant may live in code**. If gravity, move speed, mana
//! regen, the XP curve, or the loot-drop fractions were `const`s in the simulation,
//! changing them would mean a recompile + a fleet redeploy + a match restart. By
//! parking them all in one [`TuningConfig`] that travels inside the
//! [`crate::content::pack::ContentPack`], the designer edits a value, publishes a new pack,
//! and the authority swaps it at the next tick boundary — the match never stops.
//!
//! **the simulation must read these from the active [`crate::content::registry::ContentRegistry`]
//! instead of hardcoding constants.** Each field documents the system that consults
//! it. Everything here is plain `Scalar`/`u32`/`bool` so it serializes, hashes, and
//! diffs trivially.

use crate::scalar::{dec, decimal, Scalar};
use vstd::prelude::*;

verus! {

/// All global, match-wide balance numbers. Read by the simulation's movement, health,
/// mana, stamina, combat, progression, and loot systems every tick (or on demand)
/// rather than baked into code, so any of them can change live.
#[derive(Debug, Clone, PartialEq)]
pub struct TuningConfig {
    // ---- movement / physics (the simulation character controller) ----
    /// Downward acceleration in m/s^2 applied to grounded-and-airborne actors.
    pub gravity: Scalar,
    /// Base walk speed in m/s before item/status multipliers.
    pub base_move_speed: Scalar,
    /// Multiplier applied to `base_move_speed` while sprinting.
    pub sprint_mult: Scalar,
    /// Multiplier applied to `base_move_speed` while crouched.
    pub crouch_mult: Scalar,
    /// Upward velocity (m/s) imparted by a jump.
    pub jump_impulse: Scalar,
    /// Horizontal acceleration (m/s^2) available while airborne (air control).
    pub air_accel: Scalar,
    /// Horizontal acceleration (m/s^2) available while grounded.
    pub ground_accel: Scalar,
    /// Velocity damping per second applied on the ground (higher = stickier stops).
    pub friction: Scalar,

    // ---- vitals (health / mana / stamina pools the sim initializes per actor) ----
    /// Default maximum health before `StatMods` / tech contributions.
    pub base_max_health: Scalar,
    /// Default maximum mana before contributions.
    pub base_max_mana: Scalar,
    /// Mana regenerated per second at rest before contributions.
    pub base_mana_regen: Scalar,
    /// Default maximum stamina (the pool movement modes drain).
    pub base_max_stamina: Scalar,
    /// Stamina regenerated per second.
    pub stamina_regen: Scalar,

    // ---- respawn / lifecycle ----
    /// Seconds a dead player waits before respawning.
    pub respawn_seconds: Scalar,

    // ---- loot economy (the "kill -> drop" mechanic; see crate::content::loot) ----
    /// Fraction (0..1) of the victim's banked XP that drops as a free pickup.
    pub loot_xp_drop_frac: Scalar,
    /// Fraction (0..1) of the victim's XP that is permanently bound to the killer
    /// (cannot be stolen by a third party picking up the world drop).
    pub loot_xp_bound_frac: Scalar,
    /// Fraction (0..1) of the victim's carried items that scatter as world drops.
    pub loot_item_drop_frac: Scalar,

    // ---- netcode ----
    /// Maximum milliseconds the authority will rewind for lag-compensated hit
    /// validation. Caps how far a high-ping client can "see into the past".
    pub lag_comp_max_ms: Scalar,

    // ---- combat pacing ----
    /// A floor (seconds) between any two spell casts by one actor, regardless of a
    /// spell's own cooldown — the global cooldown that keeps cast spam in check.
    pub spell_global_cooldown: Scalar,
    /// Global multiplier applied to damage from a headshot/critical hit location.
    pub headshot_mult_global: Scalar,

    // ---- progression (the XP curve and per-level point grants) ----
    /// Base of the level XP curve: `xp_to(level) = xp_curve_base * level^xp_curve_exp`.
    pub xp_curve_base: Scalar,
    /// Exponent of the level XP curve (super-linear difficulty ramp).
    pub xp_curve_exp: Scalar,
    /// Tech/skill points granted per level-up (spent in the tech tree).
    pub skill_points_per_level: u32,
    /// Attribute points granted per level-up (spent on power/focus/agility/vitality).
    pub attribute_points_per_level: u32,

    // ---- world population ----
    /// Multiplier on every [`crate::content::spawn::SpawnRuleDef`]'s `max_alive` budget, so the
    /// designer can thin or flood the whole world from one knob.
    pub mob_spawn_density: Scalar,
    /// Whether terrain/world edits persist across the match (mage-shaped world) or
    /// heal back over time.
    pub world_edit_persistence: bool,
    /// Whether allies can damage each other globally (game modes may still override).
    pub friendly_fire: bool,
}

impl Default for TuningConfig {
    /// Sensible, playable defaults for a fast first-person mage shooter.
    fn default() -> (r: Self)
        ensures
            r.gravity == decimal(24, 0),
            r.base_move_speed == decimal(7, 0),
            r.sprint_mult == decimal(16, 1),
            r.crouch_mult == decimal(5, 1),
            r.jump_impulse == decimal(85, 1),
            r.air_accel == decimal(18, 0),
            r.ground_accel == decimal(80, 0),
            r.friction == decimal(10, 0),
            r.base_max_health == decimal(100, 0),
            r.base_max_mana == decimal(100, 0),
            r.base_mana_regen == decimal(5, 0),
            r.base_max_stamina == decimal(100, 0),
            r.stamina_regen == decimal(18, 0),
            r.respawn_seconds == decimal(5, 0),
            r.loot_xp_drop_frac == decimal(25, 2),
            r.loot_xp_bound_frac == decimal(1, 1),
            r.loot_item_drop_frac == decimal(5, 1),
            r.lag_comp_max_ms == decimal(250, 0),
            r.spell_global_cooldown == decimal(25, 2),
            r.headshot_mult_global == decimal(2, 0),
            r.xp_curve_base == decimal(100, 0),
            r.xp_curve_exp == decimal(15, 1),
            r.skill_points_per_level == 1,
            r.attribute_points_per_level == 3,
            r.mob_spawn_density == decimal(1, 0),
            r.world_edit_persistence == true,
            r.friendly_fire == false,
    {
        TuningConfig {
            gravity: dec(24, 0),
            base_move_speed: dec(7, 0),
            sprint_mult: dec(16, 1),
            crouch_mult: dec(5, 1),
            jump_impulse: dec(85, 1),
            air_accel: dec(18, 0),
            ground_accel: dec(80, 0),
            friction: dec(10, 0),
            base_max_health: dec(100, 0),
            base_max_mana: dec(100, 0),
            base_mana_regen: dec(5, 0),
            base_max_stamina: dec(100, 0),
            stamina_regen: dec(18, 0),
            respawn_seconds: dec(5, 0),
            loot_xp_drop_frac: dec(25, 2),
            loot_xp_bound_frac: dec(1, 1),
            loot_item_drop_frac: dec(5, 1),
            lag_comp_max_ms: dec(250, 0),
            spell_global_cooldown: dec(25, 2),
            headshot_mult_global: dec(2, 0),
            xp_curve_base: dec(100, 0),
            xp_curve_exp: dec(15, 1),
            skill_points_per_level: 1,
            attribute_points_per_level: 3,
            mob_spawn_density: dec(1, 0),
            world_edit_persistence: true,
            friendly_fire: false,
        }
    }
}

} // verus!
