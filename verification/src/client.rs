//! The client's own rules: what input means, what the heads-up display shows, which
//! effects an event sets off, how hosting and sessions proceed from one message or frame
//! to the next. Drawing, sockets and floating-point motion are the platform's.

pub mod event;
pub mod feedback;
pub mod host;
pub mod hotreload;
pub mod hud;
pub mod input;
pub mod json;
pub mod particles;
pub mod render;
pub mod session;
