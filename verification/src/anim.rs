//! The animation data and its bookkeeping: joint hierarchies, poses, keyframed clips and
//! the animator's timers. Motion is synthesised from [`skeleton::JointRole`]s, so any
//! generated body shape animates without authored clips. Matrix and quaternion arithmetic
//! is handed in by the caller.

pub mod clip;
pub mod pose;
pub mod procedural;
pub mod skeleton;
pub mod state;
pub mod transform;
