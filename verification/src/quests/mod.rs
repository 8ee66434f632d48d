//! Quests: their data, the progress through their waves, and the strategies
//! that release the creatures of a wave over time.

pub mod builders;
pub mod database;
pub mod systems;
