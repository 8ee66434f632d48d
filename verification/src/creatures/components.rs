//! Creature health and speed, and the record of a creature as a target.

use vstd::prelude::*;
use crate::fixed::{scale, scale_spec};
use crate::geometry::Vector;

verus! {

/// Hit points of a creature, in thousandths.
#[derive(Debug, Clone, Copy, PartialEq, Eq, Structural)]
pub struct CreatureHealth {
    pub current: u32,
    pub max: u32,
}

impl CreatureHealth {
    /// The health left after `amount` of damage: never below zero.
    pub open spec fn after_damage(self, amount: u32) -> CreatureHealth {
        CreatureHealth {
            current: if self.current >= amount {
                (self.current - amount) as u32
            } else {
                0
            },
            max: self.max,
        }
    }

    /// Whether no health is left.
    pub open spec fn spec_is_dead(self) -> bool {
        self.current == 0
    }

    /// The share of health left, in thousandths of the maximum.
    pub open spec fn spec_percentage(self) -> int {
        if self.max > 0 {
            crate::fixed::mul_div_spec(self.current as int, 1000, self.max as int)
        } else {
            0
        }
    }

    /// A creature at full health.
    pub fn new(max: u32) -> (r: Self)
        ensures
            r == (CreatureHealth { current: max, max }),
    {
        CreatureHealth { current: max, max }
    }

    /// Takes `amount` off the current health, stopping at zero.
    pub fn damage(&mut self, amount: u32)
        ensures
            *final(self) == old(self).after_damage(amount),
            final(self).current <= old(self).current,
            final(self).current + amount >= old(self).current,
    {
        self.current = self.current.saturating_sub(amount);
    }

    /// Whether no health is left.
    pub fn is_dead(&self) -> (r: bool)
        ensures
            r == self.spec_is_dead(),
    {
        self.current == 0
    }

    /// The share of health left, in thousandths of the maximum.
    pub fn percentage(&self) -> (r: u32)
        ensures
            r == self.spec_percentage(),
    {
        if self.max > 0 {
            crate::fixed::mul_div(self.current, 1000, self.max)
        } else {
            0
        }
    }
}

/// Movement speed of a creature, in thousandths of a unit per second.
#[derive(Debug, Clone, Copy, PartialEq, Eq, Structural)]
pub struct CreatureSpeed(pub u32);

impl CreatureSpeed {
    /// The speed after a slowing hit: multiplied by `slow_amount` thousandths.
    pub open spec fn slowed(self, slow_amount: u32) -> CreatureSpeed {
        CreatureSpeed(scale_spec(self.0 as int, slow_amount as int) as u32)
    }

    /// Multiplies the speed by `slow_amount` thousandths.
    pub fn slow(&mut self, slow_amount: u32)
        ensures
            *final(self) == old(self).slowed(slow_amount),
    {
        self.0 = scale(self.0, slow_amount);
    }
}

/// A live creature as combat sees it: where it is, and the health and speed
/// that a hit may change.
#[derive(Debug, Clone, Copy, PartialEq, Eq, Structural)]
pub struct Target {
    pub entity: u64,
    pub position: Vector,
    pub health: CreatureHealth,
    pub speed: CreatureSpeed,
}

/// Types of creatures in the game.
#[derive(Debug, Clone, Copy, PartialEq, Eq, Hash, Structural)]
pub enum CreatureType {
    Zombie,
    Spider,
    Lizard,
    Beetle,
    AlienSpider,
    Giant,
    Necromancer,
    GiantSpider,
    Dog,
    Runner,
    AlienShooter,
    Turret,
    Phantom,
    Exploder,
    Splitter,
    BossSpider,
    BossAlien,
    BossNest,
}

impl CreatureType {
    /// Health at spawn, in thousandths.
    pub open spec fn spec_base_health(self) -> u32 {
        match self {
            CreatureType::Zombie => 30_000,
            CreatureType::Spider => 15_000,
            CreatureType::Lizard => 25_000,
            CreatureType::Beetle => 20_000,
            CreatureType::AlienSpider => 40_000,
            CreatureType::Giant => 100_000,
            CreatureType::Necromancer => 80_000,
            CreatureType::GiantSpider => 120_000,
            CreatureType::Dog => 20_000,
            CreatureType::Runner => 25_000,
            CreatureType::AlienShooter => 35_000,
            CreatureType::Turret => 60_000,
            CreatureType::Phantom => 50_000,
            CreatureType::Exploder => 15_000,
            CreatureType::Splitter => 40_000,
            CreatureType::BossSpider => 500_000,
            CreatureType::BossAlien => 800_000,
            CreatureType::BossNest => 1_000_000,
        }
    }

    /// Health at spawn, in thousandths.
    pub fn base_health(&self) -> (r: u32)
        ensures
            r == self.spec_base_health(),
    {
        match self {
            CreatureType::Zombie => 30_000,
            CreatureType::Spider => 15_000,
            CreatureType::Lizard => 25_000,
            CreatureType::Beetle => 20_000,
            CreatureType::AlienSpider => 40_000,
            CreatureType::Giant => 100_000,
            CreatureType::Necromancer => 80_000,
            CreatureType::GiantSpider => 120_000,
            CreatureType::Dog => 20_000,
            CreatureType::Runner => 25_000,
            CreatureType::AlienShooter => 35_000,
            CreatureType::Turret => 60_000,
            CreatureType::Phantom => 50_000,
            CreatureType::Exploder => 15_000,
            CreatureType::Splitter => 40_000,
            CreatureType::BossSpider => 500_000,
            CreatureType::BossAlien => 800_000,
            CreatureType::BossNest => 1_000_000,
        }
    }

    /// Speed at spawn, in thousandths of a unit per second.
    pub open spec fn spec_base_speed(self) -> u32 {
        match self {
            CreatureType::Zombie => 40_000,
            CreatureType::Spider => 80_000,
            CreatureType::Lizard => 60_000,
            CreatureType::Beetle => 50_000,
            CreatureType::AlienSpider => 90_000,
            CreatureType::Giant => 30_000,
            CreatureType::Necromancer => 35_000,
            CreatureType::GiantSpider => 45_000,
            CreatureType::Dog => 120_000,
            CreatureType::Runner => 150_000,
            CreatureType::AlienShooter => 50_000,
            CreatureType::Turret => 0,
            CreatureType::Phantom => 70_000,
            CreatureType::Exploder => 100_000,
            CreatureType::Splitter => 60_000,
            CreatureType::BossSpider => 40_000,
            CreatureType::BossAlien => 50_000,
            CreatureType::BossNest => 0,
        }
    }

    /// Speed at spawn, in thousandths of a unit per second.
    pub fn base_speed(&self) -> (r: u32)
        ensures
            r == self.spec_base_speed(),
    {
        match self {
            CreatureType::Zombie => 40_000,
            CreatureType::Spider => 80_000,
            CreatureType::Lizard => 60_000,
            CreatureType::Beetle => 50_000,
            CreatureType::AlienSpider => 90_000,
            CreatureType::Giant => 30_000,
            CreatureType::Necromancer => 35_000,
            CreatureType::GiantSpider => 45_000,
            CreatureType::Dog => 120_000,
            CreatureType::Runner => 150_000,
            CreatureType::AlienShooter => 50_000,
            CreatureType::Turret => 0,
            CreatureType::Phantom => 70_000,
            CreatureType::Exploder => 100_000,
            CreatureType::Splitter => 60_000,
            CreatureType::BossSpider => 40_000,
            CreatureType::BossAlien => 50_000,
            CreatureType::BossNest => 0,
        }
    }

    /// Damage dealt on contact, in thousandths.
    pub open spec fn spec_base_damage(self) -> u32 {
        match self {
            CreatureType::Zombie => 10_000,
            CreatureType::Spider => 8000,
            CreatureType::Lizard => 12_000,
            CreatureType::Beetle => 8000,
            CreatureType::AlienSpider => 15_000,
            CreatureType::Giant => 25_000,
            CreatureType::Necromancer => 20_000,
            CreatureType::GiantSpider => 30_000,
            CreatureType::Dog => 12_000,
            CreatureType::Runner => 10_000,
            CreatureType::AlienShooter => 15_000,
            CreatureType::Turret => 20_000,
            CreatureType::Phantom => 15_000,
            CreatureType::Exploder => 50_000,
            CreatureType::Splitter => 15_000,
            CreatureType::BossSpider => 40_000,
            CreatureType::BossAlien => 50_000,
            CreatureType::BossNest => 0,
        }
    }

    /// Damage dealt on contact, in thousandths.
    pub fn base_damage(&self) -> (r: u32)
        ensures
            r == self.spec_base_damage(),
    {
        match self {
            CreatureType::Zombie => 10_000,
            CreatureType::Spider => 8000,
            CreatureType::Lizard => 12_000,
            CreatureType::Beetle => 8000,
            CreatureType::AlienSpider => 15_000,
            CreatureType::Giant => 25_000,
            CreatureType::Necromancer => 20_000,
            CreatureType::GiantSpider => 30_000,
            CreatureType::Dog => 12_000,
            CreatureType::Runner => 10_000,
            CreatureType::AlienShooter => 15_000,
            CreatureType::Turret => 20_000,
            CreatureType::Phantom => 15_000,
            CreatureType::Exploder => 50_000,
            CreatureType::Splitter => 15_000,
            CreatureType::BossSpider => 40_000,
            CreatureType::BossAlien => 50_000,
            CreatureType::BossNest => 0,
        }
    }

    /// Experience granted for a kill.
    pub open spec fn spec_experience_value(self) -> u32 {
        match self {
            CreatureType::Zombie => 10,
            CreatureType::Spider => 8,
            CreatureType::Lizard => 12,
            CreatureType::Beetle => 8,
            CreatureType::AlienSpider => 20,
            CreatureType::Giant => 50,
            CreatureType::Necromancer => 40,
            CreatureType::GiantSpider => 60,
            CreatureType::Dog => 15,
            CreatureType::Runner => 15,
            CreatureType::AlienShooter => 25,
            CreatureType::Turret => 30,
            CreatureType::Phantom => 35,
            CreatureType::Exploder => 20,
            CreatureType::Splitter => 25,
            CreatureType::BossSpider => 500,
            CreatureType::BossAlien => 800,
            CreatureType::BossNest => 1000,
        }
    }

    /// Experience granted for a kill.
    pub fn experience_value(&self) -> (r: u32)
        ensures
            r == self.spec_experience_value(),
    {
        match self {
            CreatureType::Zombie => 10,
            CreatureType::Spider => 8,
            CreatureType::Lizard => 12,
            CreatureType::Beetle => 8,
            CreatureType::AlienSpider => 20,
            CreatureType::Giant => 50,
            CreatureType::Necromancer => 40,
            CreatureType::GiantSpider => 60,
            CreatureType::Dog => 15,
            CreatureType::Runner => 15,
            CreatureType::AlienShooter => 25,
            CreatureType::Turret => 30,
            CreatureType::Phantom => 35,
            CreatureType::Exploder => 20,
            CreatureType::Splitter => 25,
            CreatureType::BossSpider => 500,
            CreatureType::BossAlien => 800,
            CreatureType::BossNest => 1000,
        }
    }

    /// Whether the creature is one of the three bosses.
    pub open spec fn spec_is_boss(self) -> bool {
        self == CreatureType::BossSpider || self == CreatureType::BossAlien || self
            == CreatureType::BossNest
    }

    /// Whether the creature is one of the three bosses.
    pub fn is_boss(&self) -> (r: bool)
        ensures
            r == self.spec_is_boss(),
    {
        match self {
            CreatureType::BossSpider | CreatureType::BossAlien | CreatureType::BossNest => true,
            _ => false,
        }
    }

    /// A target of this type at full health, standing at `position`.
    pub fn spawn(&self, entity: u64, position: Vector) -> (r: Target)
        ensures
            r == (Target {
                entity,
                position,
                health: CreatureHealth {
                    current: self.spec_base_health(),
                    max: self.spec_base_health(),
                },
                speed: CreatureSpeed(self.spec_base_speed()),
            }),
    {
        Target {
            entity,
            position,
            health: CreatureHealth::new(self.base_health()),
            speed: CreatureSpeed(self.base_speed()),
        }
    }
}

/// No creature starts dead, and every kill is worth experience.
pub proof fn lemma_creature_stats_positive(creature: CreatureType)
    ensures
        creature.spec_base_health() > 0,
        creature.spec_experience_value() > 0,
{
}

/// AI behaviour modes.
#[derive(Debug, Clone, Copy, PartialEq, Eq, Structural)]
pub enum AIMode {
    /// Chase the nearest player.
    Chase,
    /// Wander randomly.
    Wander,
    /// Flee from the player.
    Flee,
    /// Circle around the player.
    Circle,
    /// Stay where it is.
    Stationary,
    /// Dead, waiting for cleanup.
    Dead,
}

impl Default for AIMode {
    fn default() -> (r: Self)
        ensures
            r == AIMode::Chase,
    {
        AIMode::Chase
    }
}

/// Damage dealt on contact, in thousandths.
#[derive(Debug, Clone, Copy, PartialEq, Eq, Structural)]
pub struct ContactDamage(pub u32);

/// Experience granted when killed.
#[derive(Debug, Clone, Copy, PartialEq, Eq, Structural)]
pub struct ExperienceValue(pub u32);

} // verus!
