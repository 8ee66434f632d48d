//! Bonus types and the timed effects of an owner.

use vstd::prelude::*;

verus! {

/// Types of bonuses that can spawn.
#[derive(Debug, Clone, Copy, PartialEq, Eq, Hash, Structural)]
pub enum BonusType {
    SmallHealth,
    LargeHealth,
    FullHealth,
    SmallExp,
    LargeExp,
    /// A random weapon.
    WeaponPickup,
    SpeedBoost,
    FireRateBoost,
    DamageBoost,
    Invincibility,
    Shield,
    Nuke,
    Freeze,
    SlowMotion,
}

impl BonusType {
    /// How long the effect of a timed bonus lasts, in milliseconds; `None`
    /// for a bonus that acts at once.
    pub open spec fn spec_duration(self) -> Option<u32> {
        match self {
            BonusType::SpeedBoost => Some(10_000u32),
            BonusType::FireRateBoost => Some(10_000u32),
            BonusType::DamageBoost => Some(10_000u32),
            BonusType::Invincibility => Some(5000u32),
            BonusType::Shield => Some(15_000u32),
            BonusType::SlowMotion => Some(5000u32),
            _ => None,
        }
    }

    /// The weight with which the bonus is drawn when one drops.
    pub open spec fn spec_spawn_weight(self) -> u32 {
        match self {
            BonusType::SmallHealth => 20,
            BonusType::LargeHealth => 10,
            BonusType::FullHealth => 2,
            BonusType::SmallExp => 25,
            BonusType::LargeExp => 5,
            BonusType::WeaponPickup => 15,
            BonusType::SpeedBoost => 8,
            BonusType::FireRateBoost => 8,
            BonusType::DamageBoost => 8,
            BonusType::Invincibility => 3,
            BonusType::Shield => 5,
            BonusType::Nuke => 1,
            BonusType::Freeze => 4,
            BonusType::SlowMotion => 3,
        }
    }

    /// How long the effect of a timed bonus lasts; `None` for an instant one.
    pub fn duration(&self) -> (r: Option<u32>)
        ensures
            r == self.spec_duration(),
    {
        match self {
            BonusType::SpeedBoost => Some(10_000),
            BonusType::FireRateBoost => Some(10_000),
            BonusType::DamageBoost => Some(10_000),
            BonusType::Invincibility => Some(5000),
            BonusType::Shield => Some(15_000),
            BonusType::SlowMotion => Some(5000),
            _ => None,
        }
    }

    /// The weight with which the bonus is drawn when one drops.
    pub fn spawn_weight(&self) -> (r: u32)
        ensures
            r == self.spec_spawn_weight(),
            r > 0,
    {
        match self {
            BonusType::SmallHealth => 20,
            BonusType::LargeHealth => 10,
            BonusType::FullHealth => 2,
            BonusType::SmallExp => 25,
            BonusType::LargeExp => 5,
            BonusType::WeaponPickup => 15,
            BonusType::SpeedBoost => 8,
            BonusType::FireRateBoost => 8,
            BonusType::DamageBoost => 8,
            BonusType::Invincibility => 3,
            BonusType::Shield => 5,
            BonusType::Nuke => 1,
            BonusType::Freeze => 4,
            BonusType::SlowMotion => 3,
        }
    }
}

/// Marker for bonus entities.
#[derive(Debug, Clone, Copy, PartialEq, Eq, Structural)]
pub struct Bonus {
    pub bonus_type: BonusType,
}

/// Time a bonus has left on the ground, in milliseconds.
#[derive(Debug, Clone, Copy, PartialEq, Eq, Structural)]
pub struct BonusLifetime {
    pub remaining: u32,
}

impl Default for BonusLifetime {
    fn default() -> (r: Self)
        ensures
            r.remaining == 15_000,
    {
        BonusLifetime { remaining: 15_000 }
    }
}

/// The pull of a bonus toward a player: its speed, and the player it is
/// drawn to.
#[derive(Debug, Clone, Copy, PartialEq, Eq, Structural)]
pub struct BonusAttraction {
    pub speed: u32,
    pub target: Option<u64>,
}

impl Default for BonusAttraction {
    fn default() -> (r: Self)
        ensures
            r == (BonusAttraction { speed: 200_000, target: None }),
    {
        BonusAttraction { speed: 200_000, target: None }
    }
}

/// The timed effects active on a player: for each the time left, in
/// milliseconds.
#[derive(Debug, Clone, Copy, PartialEq, Eq, Structural)]
pub struct ActiveBonusEffects {
    pub speed_boost_timer: u32,
    pub fire_rate_boost_timer: u32,
    pub damage_boost_timer: u32,
    pub invincibility_timer: u32,
    pub shield_timer: u32,
    pub slow_motion_timer: u32,
}

/// A timer after `delta`: it stops at zero.
pub open spec fn run_down(timer: u32, delta: u32) -> u32 {
    if timer >= delta {
        (timer - delta) as u32
    } else {
        0
    }
}

impl Default for ActiveBonusEffects {
    fn default() -> (r: Self)
        ensures
            r == (ActiveBonusEffects {
                speed_boost_timer: 0,
                fire_rate_boost_timer: 0,
                damage_boost_timer: 0,
                invincibility_timer: 0,
                shield_timer: 0,
                slow_motion_timer: 0,
            }),
    {
        ActiveBonusEffects {
            speed_boost_timer: 0,
            fire_rate_boost_timer: 0,
            damage_boost_timer: 0,
            invincibility_timer: 0,
            shield_timer: 0,
            slow_motion_timer: 0,
        }
    }
}

impl ActiveBonusEffects {
    /// The timers after `delta` milliseconds: each stops at zero.
    pub open spec fn after_tick(self, delta: u32) -> ActiveBonusEffects {
        ActiveBonusEffects {
            speed_boost_timer: run_down(self.speed_boost_timer, delta),
            fire_rate_boost_timer: run_down(self.fire_rate_boost_timer, delta),
            damage_boost_timer: run_down(self.damage_boost_timer, delta),
            invincibility_timer: run_down(self.invincibility_timer, delta),
            shield_timer: run_down(self.shield_timer, delta),
            slow_motion_timer: run_down(self.slow_motion_timer, delta),
        }
    }

    /// Whether the owner takes no damage: invincible or shielded.
    pub open spec fn spec_protects(self) -> bool {
        self.invincibility_timer > 0 || self.shield_timer > 0
    }

    /// Lets `delta` milliseconds pass on every timer.
    pub fn tick(&mut self, delta: u32)
        ensures
            *final(self) == old(self).after_tick(delta),
    {
        let next = ActiveBonusEffects {
            speed_boost_timer: self.speed_boost_timer.saturating_sub(delta),
            fire_rate_boost_timer: self.fire_rate_boost_timer.saturating_sub(delta),
            damage_boost_timer: self.damage_boost_timer.saturating_sub(delta),
            invincibility_timer: self.invincibility_timer.saturating_sub(delta),
            shield_timer: self.shield_timer.saturating_sub(delta),
            slow_motion_timer: self.slow_motion_timer.saturating_sub(delta),
        };
        *self = next;
    }

    /// Whether a speed boost lasts.
    pub fn has_speed_boost(&self) -> (r: bool)
        ensures
            r == (self.speed_boost_timer > 0),
    {
        self.speed_boost_timer > 0
    }

    /// Whether a fire rate boost lasts.
    pub fn has_fire_rate_boost(&self) -> (r: bool)
        ensures
            r == (self.fire_rate_boost_timer > 0),
    {
        self.fire_rate_boost_timer > 0
    }

    /// Whether a damage boost lasts.
    pub fn has_damage_boost(&self) -> (r: bool)
        ensures
            r == (self.damage_boost_timer > 0),
    {
        self.damage_boost_timer > 0
    }

    /// Whether invincibility lasts.
    pub fn has_invincibility(&self) -> (r: bool)
        ensures
            r == (self.invincibility_timer > 0),
    {
        self.invincibility_timer > 0
    }

    /// Whether a shield lasts.
    pub fn has_shield(&self) -> (r: bool)
        ensures
            r == (self.shield_timer > 0),
    {
        self.shield_timer > 0
    }

    /// Whether slow motion lasts.
    pub fn has_slow_motion(&self) -> (r: bool)
        ensures
            r == (self.slow_motion_timer > 0),
    {
        self.slow_motion_timer > 0
    }

    /// Whether the owner takes no damage: invincible or shielded.
    pub fn protects(&self) -> (r: bool)
        ensures
            r == self.spec_protects(),
    {
        self.invincibility_timer > 0 || self.shield_timer > 0
    }
}

} // verus!
