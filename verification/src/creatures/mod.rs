//! Creatures: what combat reads and changes of them, which of them a wave
//! may hold, and what they do.

pub mod components;
pub mod spawner;
pub mod systems;
