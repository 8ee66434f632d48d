//! Player health, experience, and timers.

use vstd::prelude::*;
use crate::fixed::{mul_div, mul_div_spec};

verus! {

/// Marker for player entities.
#[derive(Debug, Clone, Copy, PartialEq, Eq, Structural)]
pub struct Player {
    /// Player index, for more than one player.
    pub index: u8,
}

impl Default for Player {
    fn default() -> (r: Self)
        ensures
            r.index == 0,
    {
        Player { index: 0 }
    }
}

/// Hit points of a player, in thousandths.
#[derive(Debug, Clone, Copy, PartialEq, Eq, Structural)]
pub struct Health {
    pub current: u32,
    pub max: u32,
}

impl Health {
    /// The health after healing by `amount`: never above the maximum.
    pub open spec fn after_heal(self, amount: u32) -> Health {
        Health {
            current: if self.current + amount <= self.max {
                (self.current + amount) as u32
            } else {
                self.max
            },
            max: self.max,
        }
    }

    /// The health after `amount` of damage: never below zero.
    pub open spec fn after_damage(self, amount: u32) -> Health {
        Health {
            current: if self.current >= amount {
                (self.current - amount) as u32
            } else {
                0
            },
            max: self.max,
        }
    }

    /// Whether no health is left.
    pub open spec fn spec_is_dead(self) -> bool {
        self.current == 0
    }

    /// The share of health left, in thousandths of the maximum.
    pub open spec fn spec_percentage(self) -> int {
        if self.max > 0 {
            mul_div_spec(self.current as int, 1000, self.max as int)
        } else {
            0
        }
    }

    /// Full health.
    pub fn new(max: u32) -> (r: Self)
        ensures
            r == (Health { current: max, max }),
    {
        Health { current: max, max }
    }

    /// Adds `amount` to the current health, stopping at the maximum.
    pub fn heal(&mut self, amount: u32)
        ensures
            *final(self) == old(self).after_heal(amount),
    {
        let raised: u32 = self.current.saturating_add(amount);
        self.current = if raised < self.max {
            raised
        } else {
            self.max
        };
    }

    /// Takes `amount` off the current health, stopping at zero.
    pub fn damage(&mut self, amount: u32)
        ensures
            *final(self) == old(self).after_damage(amount),
            final(self).current <= old(self).current,
    {
        self.current = self.current.saturating_sub(amount);
    }

    /// Whether no health is left.
    pub fn is_dead(&self) -> (r: bool)
        ensures
            r == self.spec_is_dead(),
    {
        self.current == 0
    }

    /// The share of health left, in thousandths of the maximum.
    pub fn percentage(&self) -> (r: u32)
        ensures
            r == self.spec_percentage(),
    {
        if self.max > 0 {
            mul_div(self.current, 1000, self.max)
        } else {
            0
        }
    }
}

impl Default for Health {
    fn default() -> (r: Self)
        ensures
            r == (Health { current: 100_000, max: 100_000 }),
    {
        Health::new(100_000)
    }
}

/// Experience and level.
#[derive(Debug, Clone, Copy, PartialEq, Eq, Structural)]
pub struct Experience {
    pub current: u32,
    pub level: u32,
    pub to_next_level: u32,
}

impl Experience {
    /// The experience a level takes, given what the level before took: a
    /// fifth more, rounded down.
    pub open spec fn next_threshold(threshold: u32) -> u32 {
        mul_div_spec(threshold as int, 1200, 1000) as u32
    }

    /// Whether adding `amount` reaches the next level.
    pub open spec fn levels_up(self, amount: u32) -> bool {
        self.current + amount >= self.to_next_level
    }

    /// The experience after adding `amount`: at the threshold the level rises
    /// by one, the threshold's worth is taken off, and the next threshold is
    /// set.
    pub open spec fn after_add(self, amount: u32) -> Experience {
        if self.levels_up(amount) {
            Experience {
                current: (self.current + amount - self.to_next_level) as u32,
                level: (self.level + 1) as u32,
                to_next_level: Experience::next_threshold(self.to_next_level),
            }
        } else {
            Experience { current: (self.current + amount) as u32, ..self }
        }
    }

    /// The share of the way to the next level, in thousandths.
    pub open spec fn spec_progress(self) -> int {
        if self.to_next_level > 0 {
            mul_div_spec(self.current as int, 1000, self.to_next_level as int)
        } else {
            0
        }
    }

    /// Level one, with a hundred points to the next.
    pub fn new() -> (r: Self)
        ensures
            r == (Experience { current: 0, level: 1, to_next_level: 100 }),
    {
        Experience { current: 0, level: 1, to_next_level: 100 }
    }

    /// Whether `amount` can be added within the limits of the machine: the
    /// sum fits, and so does the next level where the level rises.
    pub open spec fn has_room(self, amount: u32) -> bool {
        self.current + amount <= u32::MAX && (self.levels_up(amount) ==> self.level < u32::MAX)
    }

    /// Whether `amount` can be added.
    pub fn has_room_for(&self, amount: u32) -> (r: bool)
        ensures
            r == self.has_room(amount),
    {
        match self.current.checked_add(amount) {
            Some(sum) => sum < self.to_next_level || self.level < u32::MAX,
            None => false,
        }
    }

    /// Adds experience; returns whether the level rose.
    pub fn add(&mut self, amount: u32) -> (leveled_up: bool)
        requires
            old(self).has_room(amount),
        ensures
            leveled_up == old(self).levels_up(amount),
            *final(self) == old(self).after_add(amount),
    {
        self.current = self.current + amount;
        if self.current >= self.to_next_level {
            self.level_up();
            true
        } else {
            false
        }
    }

    fn level_up(&mut self)
        requires
            old(self).current >= old(self).to_next_level,
            old(self).level < u32::MAX,
        ensures
            *final(self) == (Experience {
                current: (old(self).current - old(self).to_next_level) as u32,
                level: (old(self).level + 1) as u32,
                to_next_level: Experience::next_threshold(old(self).to_next_level),
            }),
    {
        self.current = self.current - self.to_next_level;
        self.level = self.level + 1;
        self.to_next_level = mul_div(self.to_next_level, 1200, 1000);
    }

    /// The share of the way to the next level, in thousandths.
    pub fn progress(&self) -> (r: u32)
        ensures
            r == self.spec_progress(),
    {
        if self.to_next_level > 0 {
            mul_div(self.current, 1000, self.to_next_level)
        } else {
            0
        }
    }
}

impl Default for Experience {
    fn default() -> (r: Self)
        ensures
            r == (Experience { current: 0, level: 1, to_next_level: 100 }),
    {
        Experience::new()
    }
}

/// Movement speed, in thousandths of a unit per second.
#[derive(Debug, Clone, Copy, PartialEq, Eq, Structural)]
pub struct MoveSpeed(pub u32);

impl Default for MoveSpeed {
    fn default() -> (r: Self)
        ensures
            r.0 == 200_000,
    {
        MoveSpeed(200_000)
    }
}

/// Whether an owner is firing.
#[derive(Debug, Clone, Copy, PartialEq, Eq, Structural)]
pub struct Firing {
    pub is_firing: bool,
    pub cooldown_timer: u32,
}

impl Default for Firing {
    fn default() -> (r: Self)
        ensures
            r == (Firing { is_firing: false, cooldown_timer: 0 }),
    {
        Firing { is_firing: false, cooldown_timer: 0 }
    }
}

/// Time left, in milliseconds, during which no damage is taken.
#[derive(Debug, Clone, Copy, PartialEq, Eq, Structural)]
pub struct Invincibility {
    pub timer: u32,
}

impl Invincibility {
    /// Whether time is left.
    pub open spec fn spec_is_active(self) -> bool {
        self.timer > 0
    }

    /// The timer after `delta` milliseconds: it stops at zero.
    pub open spec fn after_tick(self, delta: u32) -> Invincibility {
        Invincibility {
            timer: if self.timer >= delta {
                (self.timer - delta) as u32
            } else {
                0
            },
        }
    }

    /// Invincibility that lasts for `duration`.
    pub fn new(duration: u32) -> (r: Self)
        ensures
            r.timer == duration,
    {
        Invincibility { timer: duration }
    }

    /// Whether time is left.
    pub fn is_active(&self) -> (r: bool)
        ensures
            r == self.spec_is_active(),
    {
        self.timer > 0
    }

    /// Lets `delta` milliseconds pass.
    pub fn tick(&mut self, delta: u32)
        ensures
            *final(self) == old(self).after_tick(delta),
    {
        self.timer = self.timer.saturating_sub(delta);
    }
}

} // verus!
