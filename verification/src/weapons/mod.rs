//! Weapons, projectiles and the stages that resolve a tick of combat.

pub mod collision;
pub mod components;
pub mod effects;
pub mod laws;
pub mod registry;
pub mod resolution;
pub mod systems;
pub mod targeting;
