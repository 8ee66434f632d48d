//! Settings of the player.

use vstd::prelude::*;

verus! {

/// Configuration of player behaviour: speeds and health in thousandths,
/// durations in milliseconds.
#[derive(Debug, Clone, Copy, PartialEq, Eq, Structural)]
pub struct PlayerConfig {
    /// Base movement speed per second.
    pub base_move_speed: u32,
    /// Base health.
    pub base_health: u32,
    /// Invincibility after taking damage.
    pub damage_invincibility_duration: u32,
    /// Invincibility after spawning.
    pub spawn_invincibility_duration: u32,
    /// Base experience multiplier.
    pub exp_multiplier: u32,
}

impl Default for PlayerConfig {
    fn default() -> (r: Self)
        ensures
            r == (PlayerConfig {
                base_move_speed: 200_000,
                base_health: 100_000,
                damage_invincibility_duration: 500,
                spawn_invincibility_duration: 2000,
                exp_multiplier: 1000,
            }),
    {
        PlayerConfig {
            base_move_speed: 200_000,
            base_health: 100_000,
            damage_invincibility_duration: 500,
            spawn_invincibility_duration: 2000,
            exp_multiplier: 1000,
        }
    }
}

} // verus!
