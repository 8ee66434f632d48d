//! What the effects do, as far as it is numbers: which particles an effect
//! sends out and how, and how a particle flies, ages and fades.

use vstd::prelude::*;
use crate::creatures::spawner::FULL_TURN;
use crate::effects::components::{Effect, EffectType, Particle, SpawnEffectEvent};
use crate::fixed::{
    clamp_i32, lemma_product_bound, saturate_i32, scale, scale_spec, signed_mul_div,
    signed_mul_div_spec,
};
use crate::geometry::{advance, advance_spec, Vector};
use crate::rng::random_between;

verus! {

/// How the particles of an effect leave the place of the effect: speeds in
/// thousandths of a unit per second.
#[derive(Debug, Clone, Copy, PartialEq, Eq, Structural)]
pub enum Scatter {
    /// One particle, at rest.
    Still,
    /// `count` particles, each at an angle and a speed of its own, the speed
    /// from `low` up to, not including, `high`.
    Random { count: u32, low: u32, high: u32 },
    /// `count` particles evenly around the place, all at `speed`.
    Ring { count: u32, speed: u32 },
}

/// How an effect of the type with `count` asked for scatters: blood and
/// sparks as many as asked for, impacts five at most, a death fifteen drops,
/// and the rings of a pickup and of a level gained eight and sixteen.
pub open spec fn scatter_of(effect_type: EffectType, count: u32) -> Scatter {
    match effect_type {
        EffectType::BloodSplatter => Scatter::Random { count, low: 50_000, high: 150_000 },
        EffectType::Explosion => Scatter::Random { count, low: 100_000, high: 300_000 },
        EffectType::MuzzleFlash => Scatter::Still,
        EffectType::BulletImpact => Scatter::Random {
            count: if count > 5 {
                5
            } else {
                count
            },
            low: 30_000,
            high: 80_000,
        },
        EffectType::PickupCollect => Scatter::Ring { count: 8, speed: 100_000 },
        EffectType::LevelUp => Scatter::Ring { count: 16, speed: 150_000 },
        EffectType::Death => Scatter::Random { count: 15, low: 80_000, high: 200_000 },
    }
}

/// How an effect scatters.
pub fn scatter(effect_type: EffectType, count: u32) -> (r: Scatter)
    ensures
        r == scatter_of(effect_type, count),
{
    match effect_type {
        EffectType::BloodSplatter => Scatter::Random { count, low: 50_000, high: 150_000 },
        EffectType::Explosion => Scatter::Random { count, low: 100_000, high: 300_000 },
        EffectType::MuzzleFlash => Scatter::Still,
        EffectType::BulletImpact => Scatter::Random {
            count: if count > 5 {
                5
            } else {
                count
            },
            low: 30_000,
            high: 80_000,
        },
        EffectType::PickupCollect => Scatter::Ring { count: 8, speed: 100_000 },
        EffectType::LevelUp => Scatter::Ring { count: 16, speed: 150_000 },
        EffectType::Death => Scatter::Random { count: 15, low: 80_000, high: 200_000 },
    }
}

/// The particle of an effect that leaves with `velocity`: a drop of blood
/// for blood and death, a spark for an explosion, a flash at rest for a
/// muzzle flash, and a plain particle of the effect's own lifetime for the
/// others, growing for a level gained.
pub open spec fn particle_of(effect_type: EffectType, velocity: Vector) -> (Effect, Particle) {
    let plain = Particle {
        velocity,
        lifetime: 0,
        max_lifetime: 0,
        gravity: 0,
        fade_out: true,
        scale_over_time: None,
    };
    match effect_type {
        EffectType::BloodSplatter | EffectType::Death => (
            Effect { effect_type: EffectType::BloodSplatter },
            Particle { lifetime: 500, max_lifetime: 500, gravity: 200_000, ..plain },
        ),
        EffectType::Explosion => (
            Effect { effect_type },
            Particle { lifetime: 300, max_lifetime: 300, scale_over_time: Some(2000i32), ..plain },
        ),
        EffectType::MuzzleFlash => (
            Effect { effect_type },
            Particle { velocity: Vector { x: 0, y: 0 }, lifetime: 50, max_lifetime: 50, ..plain },
        ),
        EffectType::BulletImpact => (
            Effect { effect_type },
            Particle { lifetime: 200, max_lifetime: 200, ..plain },
        ),
        EffectType::PickupCollect => (
            Effect { effect_type },
            Particle { lifetime: 300, max_lifetime: 300, ..plain },
        ),
        EffectType::LevelUp => (
            Effect { effect_type },
            Particle { lifetime: 500, max_lifetime: 500, scale_over_time: Some(1500i32), ..plain },
        ),
    }
}

/// Makes the particle of an effect.
pub fn make_particle(effect_type: EffectType, velocity: Vector) -> (r: (Effect, Particle))
    ensures
        r == particle_of(effect_type, velocity),
{
    match effect_type {
        EffectType::BloodSplatter | EffectType::Death => Particle::blood(velocity),
        EffectType::Explosion => Particle::explosion(velocity),
        EffectType::MuzzleFlash => Particle::muzzle_flash(),
        EffectType::BulletImpact => (Effect { effect_type }, Particle::new(velocity, 200)),
        EffectType::PickupCollect => (
            Effect { effect_type },
            Particle::new(velocity, 300).with_fade(true),
        ),
        EffectType::LevelUp => (
            Effect { effect_type },
            Particle::new(velocity, 500).with_fade(true).with_scale_change(1500),
        ),
    }
}

/// The angle of particle `i` of a ring of `count`, in millionths of a
/// radian: that share of a full turn.
pub open spec fn ring_angle(i: u32, count: u32) -> int {
    if count == 0 {
        0
    } else {
        i * FULL_TURN / (count as int)
    }
}

/// The angle of a particle of a ring.
pub fn ring_turn(i: u32, count: u32) -> (r: i64)
    ensures
        r == ring_angle(i, count),
        i < count ==> 0 <= r < FULL_TURN,
{
    if count == 0 {
        0
    } else {
        assert(0 <= i * FULL_TURN <= u32::MAX * FULL_TURN) by (nonlinear_arith)
            requires
                0 <= i <= u32::MAX,
                FULL_TURN == 6_283_185,
        ;
        proof {
            if i < count {
                let whole = FULL_TURN as int;
                let n = count as int;
                let k = i as int;
                assert(0 <= k * whole / n < whole) by (nonlinear_arith)
                    requires
                        0 <= k < n,
                        whole > 0,
                ;
            }
        }
        (i as i64) * FULL_TURN / (count as i64)
    }
}

/// Draws how one particle of a random scatter leaves: an angle in millionths
/// of a radian, and a speed from `low` up to, not including, `high`; `low`
/// where that range is empty.
pub fn draw_scatter(low: u32, high: u32) -> (r: (i64, u32))
    ensures
        0 <= r.0 < FULL_TURN,
        low < high ==> low <= r.1 < high,
        low >= high ==> r.1 == low,
{
    let angle: i64 = random_between(0, FULL_TURN - 1);
    let speed: u32 = if low < high {
        random_between(low as i64, high as i64 - 1) as u32
    } else {
        low
    };
    (angle, speed)
}

/// How many particles are asked for where an effect of the type is set off:
/// eight drops of blood, three sparks of an impact, one of every other.
pub open spec fn effect_count(effect_type: EffectType) -> u32 {
    match effect_type {
        EffectType::BloodSplatter => 8,
        EffectType::BulletImpact => 3,
        _ => 1,
    }
}

/// The event that sets an effect of the type off at `position`.
pub fn effect_at(effect_type: EffectType, position: Vector) -> (r: SpawnEffectEvent)
    ensures
        r == (SpawnEffectEvent { effect_type, position, count: effect_count(effect_type) }),
{
    let count: u32 = match effect_type {
        EffectType::BloodSplatter => 8,
        EffectType::BulletImpact => 3,
        _ => 1,
    };
    SpawnEffectEvent { effect_type, position, count }
}

impl Particle {
    /// The particle after `dt` milliseconds: gravity has pulled its velocity
    /// down, and its lifetime has run.
    pub open spec fn after(self, dt: u32) -> Particle {
        Particle {
            velocity: Vector {
                x: self.velocity.x,
                y: clamp_i32(self.velocity.y - scale_spec(self.gravity as int, dt as int)) as i32,
            },
            lifetime: if self.lifetime >= dt {
                (self.lifetime - dt) as u32
            } else {
                0
            },
            ..self
        }
    }

    /// How opaque the particle is, in thousandths: a fading particle as much
    /// as it has of its lifetime left, any other fully.
    pub open spec fn spec_opacity(self) -> int {
        if self.fade_out {
            1000 - self.spec_progress()
        } else {
            1000
        }
    }

    /// By how much the particle's size is multiplied over `dt` milliseconds,
    /// in thousandths: one and the change of scale for that time.
    pub open spec fn spec_growth(self, dt: u32) -> int {
        match self.scale_over_time {
            Some(change) => 1000 + signed_mul_div_spec(change as int, dt as int, 1000),
            None => 1000,
        }
    }

    /// Lets `dt` milliseconds pass for a particle at `position`: returns where
    /// it is then, moved by its velocity as it was, and pulls the velocity
    /// down and runs the lifetime.
    pub fn update(&mut self, position: Vector, dt: u32) -> (r: Vector)
        ensures
            r == advance_spec(position, old(self).velocity, 1000, dt as int),
            *final(self) == old(self).after(dt),
    {
        let place = advance(position, self.velocity, 1000, dt);
        let pull: u32 = scale(self.gravity, dt);
        self.velocity = Vector {
            x: self.velocity.x,
            y: saturate_i32((self.velocity.y as i128) - (pull as i128)),
        };
        self.lifetime = self.lifetime.saturating_sub(dt);
        place
    }

    /// How opaque the particle is.
    pub fn opacity(&self) -> (r: u32)
        ensures
            r == self.spec_opacity(),
            r <= 1000,
    {
        if self.fade_out {
            1000 - self.progress()
        } else {
            1000
        }
    }

    /// By how much the particle's size is multiplied over `dt` milliseconds.
    pub fn growth(&self, dt: u32) -> (r: i64)
        ensures
            r == self.spec_growth(dt),
    {
        match self.scale_over_time {
            Some(change) => {
                proof {
                    let size = if change >= 0 { change as int } else { -change };
                    lemma_product_bound(size, dt as int, 0x8000_0000, 0xFFFF_FFFF);
                    assert(0 <= size * dt / 1000 <= size * dt) by (nonlinear_arith)
                        requires
                            0 <= size * dt,
                    ;
                }
                let part: i128 = signed_mul_div(change as i64, dt as u64, 1000);
                (1000 + part) as i64
            },
            None => 1000,
        }
    }
}

} // verus!
