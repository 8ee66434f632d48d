//! The player as far as combat reaches: health, experience, and the damage a
//! player takes.

pub mod components;
pub mod resources;
pub mod systems;
