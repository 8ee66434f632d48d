//! Perks and the bonuses they give.

pub mod classic;
pub mod components;
pub mod registry;
pub mod systems;
