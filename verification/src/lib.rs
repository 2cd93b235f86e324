//! Cerena: the data and rules of a hot-reloadable first-person mage game.

pub mod anim;
pub mod assets;
pub mod client;
pub mod content;
pub mod scalar;
pub mod text;
pub mod table;
