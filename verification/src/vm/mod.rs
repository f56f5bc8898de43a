//! The engine's subsystems.

pub mod contentengine;
pub mod graphicsengine;
