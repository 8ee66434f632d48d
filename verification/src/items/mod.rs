//! Items that a player carries and sets off.

pub mod components;
pub mod systems;
