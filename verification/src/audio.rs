//! Audio settings, and which sound goes with which event.

use vstd::prelude::*;
use crate::bonuses::components::BonusType;
use crate::fixed::{scale, scale_spec};
use crate::geometry::Vector;
use crate::weapons::components::WeaponId;

verus! {

/// Audio settings: volumes in thousandths.
#[derive(Debug, Clone, Copy, PartialEq, Eq, Structural)]
pub struct AudioSettings {
    pub master_volume: u32,
    pub music_volume: u32,
    pub sfx_volume: u32,
    pub music_enabled: bool,
    pub sfx_enabled: bool,
}

impl Default for AudioSettings {
    /// Full master volume, and music and effects switched off.
    fn default() -> (r: Self)
        ensures
            r == (AudioSettings {
                master_volume: 1000,
                music_volume: 700,
                sfx_volume: 1000,
                music_enabled: false,
                sfx_enabled: false,
            }),
    {
        AudioSettings {
            master_volume: 1000,
            music_volume: 700,
            sfx_volume: 1000,
            music_enabled: false,
            sfx_enabled: false,
        }
    }
}

impl AudioSettings {
    /// The volume at which music plays: the master volume times the music
    /// volume, and nothing while music is switched off.
    pub fn effective_music_volume(&self) -> (r: u32)
        ensures
            r == if self.music_enabled {
                scale_spec(self.master_volume as int, self.music_volume as int)
            } else {
                0
            },
    {
        if self.music_enabled {
            scale(self.master_volume, self.music_volume)
        } else {
            0
        }
    }

    /// The volume at which sound effects play: the master volume times the
    /// effects volume, and nothing while effects are switched off.
    pub fn effective_sfx_volume(&self) -> (r: u32)
        ensures
            r == if self.sfx_enabled {
                scale_spec(self.master_volume as int, self.sfx_volume as int)
            } else {
                0
            },
    {
        if self.sfx_enabled {
            scale(self.master_volume, self.sfx_volume)
        } else {
            0
        }
    }
}

/// Sound effect types.
#[derive(Debug, Clone, Copy, PartialEq, Eq, Structural)]
pub enum SoundEffect {
    PistolFire,
    ShotgunFire,
    RifleFire,
    RocketFire,
    PlasmaFire,
    BulletHit,
    Explosion,
    CreatureDeath,
    CreatureSpawn,
    PlayerHurt,
    PlayerDeath,
    LevelUp,
    HealthPickup,
    WeaponPickup,
    BonusPickup,
    ItemPickup,
    ItemUse,
    MenuSelect,
    MenuBack,
}

/// A sound effect is to be played, at a place where it has one.
#[derive(Debug, Clone, Copy, PartialEq, Eq, Structural)]
pub struct PlaySoundEvent {
    pub sound: SoundEffect,
    pub position: Option<Vector>,
}

/// The sound of a weapon being fired.
pub open spec fn spec_weapon_fire_sound(weapon_id: WeaponId) -> SoundEffect {
    match weapon_id {
        WeaponId::Pistol | WeaponId::Magnum | WeaponId::PocketRocket => SoundEffect::PistolFire,
        WeaponId::Shotgun | WeaponId::DoubleBarrel | WeaponId::Jackhammer | WeaponId::GaussShotgun => SoundEffect::ShotgunFire,
        WeaponId::RocketLauncher | WeaponId::GrenadeLauncher => SoundEffect::RocketFire,
        WeaponId::PlasmaRifle | WeaponId::IonRifle | WeaponId::PulseGun | WeaponId::GaussGun => SoundEffect::PlasmaFire,
        _ => SoundEffect::RifleFire,
    }
}

/// The sound of a weapon being fired.
pub fn weapon_fire_sound(weapon_id: WeaponId) -> (r: SoundEffect)
    ensures
        r == spec_weapon_fire_sound(weapon_id),
{
    match weapon_id {
        WeaponId::Pistol | WeaponId::Magnum | WeaponId::PocketRocket => SoundEffect::PistolFire,
        WeaponId::AssaultRifle
        | WeaponId::MachineGun
        | WeaponId::Minigun
        | WeaponId::Uzi
        | WeaponId::Smg
        | WeaponId::DualSmg => SoundEffect::RifleFire,
        WeaponId::Shotgun | WeaponId::DoubleBarrel | WeaponId::Jackhammer | WeaponId::GaussShotgun => SoundEffect::ShotgunFire,
        WeaponId::RocketLauncher | WeaponId::GrenadeLauncher => SoundEffect::RocketFire,
        WeaponId::PlasmaRifle | WeaponId::IonRifle | WeaponId::PulseGun | WeaponId::GaussGun => SoundEffect::PlasmaFire,
        _ => SoundEffect::RifleFire,
    }
}

/// The sound of a bonus being picked up.
pub fn bonus_pickup_sound(bonus_type: BonusType) -> (r: SoundEffect)
    ensures
        r == match bonus_type {
            BonusType::SmallHealth | BonusType::LargeHealth | BonusType::FullHealth => SoundEffect::HealthPickup,
            BonusType::WeaponPickup => SoundEffect::WeaponPickup,
            _ => SoundEffect::BonusPickup,
        },
{
    match bonus_type {
        BonusType::SmallHealth | BonusType::LargeHealth | BonusType::FullHealth => SoundEffect::HealthPickup,
        BonusType::WeaponPickup => SoundEffect::WeaponPickup,
        _ => SoundEffect::BonusPickup,
    }
}

} // verus!
