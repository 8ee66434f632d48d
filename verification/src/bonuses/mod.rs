//! Pickups dropped by killed creatures, and what collecting one does.

pub mod components;
pub mod systems;
