//! Animated movement and transparency.

pub mod engine;
pub mod manager;
pub mod movement;
pub mod settings;
pub mod transparency;
