//! From content definitions to GPU-ready data: the layer whose whole job is to make the
//! renderer trivial. It bakes a content pack into an [`bundle::AssetBundle`] (skinned
//! meshes, textures, materials, shaders, rigs) indexed by lightweight handles, and hands
//! the client a single [`server::AssetServer`] that resolves an entity to its draw set and
//! manages the hot-reload swap when content changes under a live match.
//!
//! Nothing here touches a graphics API: every payload is plain data the client uploads
//! 1:1. The shapes themselves come from generators that the caller hands in.

pub mod bake;
pub mod bundle;
pub mod handle;
pub mod render_asset;
pub mod rig;
pub mod server;
pub mod skin;
