//! Particles and screen shake.

use vstd::prelude::*;
use crate::fixed::{mul_div, mul_div_spec, scale, scale_spec};
use crate::geometry::Vector;
use crate::rng::random_between;

verus! {

/// Types of visual effects.
#[derive(Debug, Clone, Copy, PartialEq, Eq, Structural)]
pub enum EffectType {
    /// Blood splatter when creatures die.
    BloodSplatter,
    /// Explosion effect.
    Explosion,
    /// Muzzle flash from a weapon.
    MuzzleFlash,
    /// Bullet impact on a creature.
    BulletImpact,
    /// Pickup collected.
    PickupCollect,
    /// Level up effect.
    LevelUp,
    /// Death effect.
    Death,
}

/// Marker for effect entities.
#[derive(Debug, Clone, Copy, PartialEq, Eq, Structural)]
pub struct Effect {
    pub effect_type: EffectType,
}

/// A particle: velocity and gravity in thousandths of a unit per second,
/// lifetimes in milliseconds.
#[derive(Debug, Clone, Copy, PartialEq, Eq, Structural)]
pub struct Particle {
    pub velocity: Vector,
    pub lifetime: u32,
    pub max_lifetime: u32,
    pub gravity: u32,
    pub fade_out: bool,
    /// Change of scale over the lifetime, in thousandths.
    pub scale_over_time: Option<i32>,
}

impl Particle {
    /// The share of the lifetime that has passed, in thousandths; all of it
    /// for a particle that never had a lifetime.
    pub open spec fn spec_progress(self) -> int {
        if self.max_lifetime > 0 {
            if mul_div_spec(self.lifetime as int, 1000, self.max_lifetime as int) > 1000 {
                0
            } else {
                1000 - mul_div_spec(self.lifetime as int, 1000, self.max_lifetime as int)
            }
        } else {
            1000
        }
    }

    /// A particle that fades out, without gravity or change of scale.
    pub fn new(velocity: Vector, lifetime: u32) -> (r: Self)
        ensures
            r == (Particle {
                velocity,
                lifetime,
                max_lifetime: lifetime,
                gravity: 0,
                fade_out: true,
                scale_over_time: None,
            }),
    {
        Particle {
            velocity,
            lifetime,
            max_lifetime: lifetime,
            gravity: 0,
            fade_out: true,
            scale_over_time: None,
        }
    }

    /// The same particle with gravity.
    pub fn with_gravity(self, gravity: u32) -> (r: Self)
        ensures
            r == (Particle { gravity, ..self }),
    {
        Particle { gravity, ..self }
    }

    /// The same particle, fading out or not.
    pub fn with_fade(self, fade: bool) -> (r: Self)
        ensures
            r == (Particle { fade_out: fade, ..self }),
    {
        Particle { fade_out: fade, ..self }
    }

    /// The same particle with a change of scale.
    pub fn with_scale_change(self, scale_delta: i32) -> (r: Self)
        ensures
            r == (Particle { scale_over_time: Some(scale_delta), ..self }),
    {
        Particle { scale_over_time: Some(scale_delta), ..self }
    }

    /// The share of the lifetime that has passed, in thousandths.
    pub fn progress(&self) -> (r: u32)
        ensures
            r == self.spec_progress(),
    {
        if self.max_lifetime > 0 {
            let left: u32 = mul_div(self.lifetime, 1000, self.max_lifetime);
            if left > 1000 {
                0
            } else {
                1000 - left
            }
        } else {
            1000
        }
    }

    /// Whether no lifetime is left.
    pub fn is_expired(&self) -> (r: bool)
        ensures
            r == (self.lifetime == 0),
    {
        self.lifetime == 0
    }

    /// A drop of blood.
    pub fn blood(velocity: Vector) -> (r: (Effect, Particle))
        ensures
            r.0.effect_type == EffectType::BloodSplatter,
            r.1 == (Particle {
                velocity,
                lifetime: 500,
                max_lifetime: 500,
                gravity: 200_000,
                fade_out: true,
                scale_over_time: None,
            }),
    {
        (
            Effect { effect_type: EffectType::BloodSplatter },
            Particle::new(velocity, 500).with_gravity(200_000),
        )
    }

    /// A spark of an explosion.
    pub fn explosion(velocity: Vector) -> (r: (Effect, Particle))
        ensures
            r.0.effect_type == EffectType::Explosion,
            r.1 == (Particle {
                velocity,
                lifetime: 300,
                max_lifetime: 300,
                gravity: 0,
                fade_out: true,
                scale_over_time: Some(2000i32),
            }),
    {
        (
            Effect { effect_type: EffectType::Explosion },
            Particle::new(velocity, 300).with_fade(true).with_scale_change(2000),
        )
    }

    /// A muzzle flash.
    pub fn muzzle_flash() -> (r: (Effect, Particle))
        ensures
            r.0.effect_type == EffectType::MuzzleFlash,
            r.1 == (Particle {
                velocity: Vector { x: 0, y: 0 },
                lifetime: 50,
                max_lifetime: 50,
                gravity: 0,
                fade_out: true,
                scale_over_time: None,
            }),
    {
        (
            Effect { effect_type: EffectType::MuzzleFlash },
            Particle::new(Vector { x: 0, y: 0 }, 50).with_fade(true),
        )
    }
}

/// The strongest shake.
pub const MAX_SHAKE: u32 = 20_000;

/// Shake of the screen: intensity in thousandths of a unit, duration in
/// milliseconds, decay in thousandths of a unit per second.
#[derive(Debug, Clone, Copy, PartialEq, Eq, Structural)]
pub struct ScreenShake {
    pub intensity: u32,
    pub duration: u32,
    pub decay: u32,
}

/// The offset of a shaken screen: a heading in millionths of a radian, and a
/// length in thousandths of a unit.
#[derive(Debug, Clone, Copy, PartialEq, Eq, Structural)]
pub struct ShakeOffset {
    pub angle: i64,
    pub length: u32,
}

impl Default for ScreenShake {
    fn default() -> (r: Self)
        ensures
            r == (ScreenShake { intensity: 0, duration: 0, decay: 0 }),
    {
        ScreenShake { intensity: 0, duration: 0, decay: 0 }
    }
}

impl ScreenShake {
    /// The shake after another was added: the intensities add up, to no more
    /// than the strongest shake; the longer duration stays; and the decay is
    /// that of the shake added, which is without end for one without
    /// duration.
    pub open spec fn after_add(self, intensity: u32, duration: u32) -> ScreenShake {
        ScreenShake {
            intensity: if self.intensity + intensity > MAX_SHAKE {
                MAX_SHAKE
            } else {
                (self.intensity + intensity) as u32
            },
            duration: if self.duration > duration {
                self.duration
            } else {
                duration
            },
            decay: if duration == 0 {
                u32::MAX
            } else {
                mul_div_spec(intensity as int, 1000, duration as int) as u32
            },
        }
    }

    /// The shake after `delta` milliseconds: while it lasts, its duration
    /// runs down and its intensity decays; after that it is gone.
    pub open spec fn after_update(self, delta: u32) -> ScreenShake {
        if self.duration > 0 {
            let lost = scale_spec(self.decay as int, delta as int);
            ScreenShake {
                duration: if self.duration >= delta {
                    (self.duration - delta) as u32
                } else {
                    0
                },
                intensity: if self.intensity >= lost {
                    (self.intensity - lost) as u32
                } else {
                    0
                },
                ..self
            }
        } else {
            ScreenShake { intensity: 0, ..self }
        }
    }

    /// Adds a shake.
    pub fn add(&mut self, intensity: u32, duration: u32)
        ensures
            *final(self) == old(self).after_add(intensity, duration),
            final(self).intensity <= MAX_SHAKE,
    {
        let sum: u32 = self.intensity.saturating_add(intensity);
        self.intensity = if sum > MAX_SHAKE {
            MAX_SHAKE
        } else {
            sum
        };
        if duration > self.duration {
            self.duration = duration;
        }
        self.decay = if duration == 0 {
            u32::MAX
        } else {
            mul_div(intensity, 1000, duration)
        };
    }

    /// Lets `delta` milliseconds pass.
    pub fn update(&mut self, delta: u32)
        ensures
            *final(self) == old(self).after_update(delta),
            final(self).intensity <= old(self).intensity,
    {
        if self.duration > 0 {
            self.duration = self.duration.saturating_sub(delta);
            self.intensity = self.intensity.saturating_sub(scale(self.decay, delta));
        } else {
            self.intensity = 0;
        }
    }

    /// Draws the offset of the screen: none without shake, else any heading
    /// and a length up to the intensity.
    pub fn get_offset(&self) -> (r: Option<ShakeOffset>)
        ensures
            self.intensity == 0 ==> r is None,
            self.intensity > 0 ==> r is Some && 0 <= r->0.angle < 6_283_185 && r->0.length
                <= self.intensity,
    {
        if self.intensity == 0 {
            return None;
        }
        let angle: i64 = random_between(0, 6_283_184);
        let share: i64 = random_between(0, 999);
        proof {
            let whole = self.intensity as int;
            let part = share as int;
            assert(0 <= whole * part / 1000 <= whole) by (nonlinear_arith)
                requires
                    0 <= whole,
                    0 <= part <= 1000,
            ;
        }
        Some(ShakeOffset { angle, length: scale(self.intensity, share as u32) })
    }
}

/// An effect is to be spawned, with `count` particles.
#[derive(Debug, Clone, Copy, PartialEq, Eq, Structural)]
pub struct SpawnEffectEvent {
    pub effect_type: EffectType,
    pub position: Vector,
    pub count: u32,
}

/// Shakes the screen a little for the hit of a projectile.
pub fn trigger_screen_shake_on_hit(shake: &mut ScreenShake)
    ensures
        *final(shake) == old(shake).after_add(1500, 100),
{
    shake.add(1500, 100);
}

} // verus!
