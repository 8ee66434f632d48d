//! Visual effects as far as they are numbers: particles and screen shake.

pub mod components;
pub mod systems;
